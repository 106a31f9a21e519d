use geoclue_bridge::coerce::coerce;
use geoclue_bridge::coerce::i64_to_decimal;
use geoclue_bridge::coerce::u64_to_decimal;
use geoclue_bridge::coerce::PropValue;

#[test]
fn text_passes_through_unchanged() {
    assert_eq!(coerce(&PropValue::Text(String::from("hello"))), "hello");
    assert_eq!(coerce(&PropValue::Text(String::new())), "");
}

#[test]
fn integers_render_in_decimal() {
    assert_eq!(coerce(&PropValue::Int(0)), "0");
    assert_eq!(coerce(&PropValue::Int(10)), "10");
    assert_eq!(coerce(&PropValue::Int(-1)), "-1");
    assert_eq!(coerce(&PropValue::Int(i64::MAX)), "9223372036854775807");
    assert_eq!(coerce(&PropValue::Int(i64::MIN)), "-9223372036854775808");
}

#[test]
fn floats_keep_their_rendered_text() {
    let rendered = 51.5f64.to_string();
    assert_eq!(coerce(&PropValue::Float(rendered.clone())), rendered);
    assert_eq!(coerce(&PropValue::Float((-0.12f64).to_string())), "-0.12");
}

#[test]
fn unsupported_shapes_yield_the_unknown_marker() {
    assert_eq!(coerce(&PropValue::Unsupported), "UNKNOWN");
}

#[test]
fn unsigned_decimal_rendering() {
    assert_eq!(u64_to_decimal(0), "0");
    assert_eq!(u64_to_decimal(7), "7");
    assert_eq!(u64_to_decimal(10), "10");
    assert_eq!(u64_to_decimal(1000), "1000");
    assert_eq!(u64_to_decimal(u64::MAX), "18446744073709551615");
}

#[test]
fn signed_decimal_rendering() {
    assert_eq!(i64_to_decimal(42), "42");
    assert_eq!(i64_to_decimal(-42), "-42");
    assert_eq!(i64_to_decimal(-1000000), "-1000000");
    assert_eq!(i64_to_decimal(i64::MIN), "-9223372036854775808");
}
