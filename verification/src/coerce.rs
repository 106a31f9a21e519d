//! Property coercion: every property value reported by the location service
//! is reduced to one string for uniform serialization.
//!
//! Textual values pass through unchanged, signed integers are rendered in
//! decimal, floating-point values arrive from the transport layer already
//! rendered to decimal text and pass through, and every other shape
//! (structures, date/time values) yields the literal marker `"UNKNOWN"`.
//! The last point is a deliberate limitation: date/time-valued properties
//! such as the fix timestamp are never decoded.

use vstd::prelude::*;
use vstd::string::StringExecFns;

verus! {

/// One property value of the location service, reduced to the scalar shapes
/// the bridge understands. A floating-point reading cannot be carried here
/// as a number; the transport layer renders it to decimal text first and the
/// coercion keeps that text.
pub enum PropValue {
    /// A textual property.
    Text(String),
    /// A signed integer property.
    Int(i64),
    /// A floating-point property, already rendered to decimal text.
    Float(String),
    /// Any other shape; deliberately not decoded.
    Unsupported,
}

/// The decimal digit character for `d` in `0 .. 10`.
pub open spec fn digit_char(d: int) -> char {
    if d == 0 {
        '0'
    } else if d == 1 {
        '1'
    } else if d == 2 {
        '2'
    } else if d == 3 {
        '3'
    } else if d == 4 {
        '4'
    } else if d == 5 {
        '5'
    } else if d == 6 {
        '6'
    } else if d == 7 {
        '7'
    } else if d == 8 {
        '8'
    } else {
        '9'
    }
}

/// The decimal digit string of a natural number, most significant digit
/// first, with no leading zero except for the number zero itself.
pub open spec fn dec_digits(n: nat) -> Seq<char>
    decreases n,
{
    if n < 10 {
        seq![digit_char(n as int)]
    } else {
        dec_digits(n / 10) + seq![digit_char((n % 10) as int)]
    }
}

/// The decimal text form of an integer: a minus sign before the digits of
/// the magnitude when negative, the bare digits otherwise.
pub open spec fn dec_repr(i: int) -> Seq<char> {
    if i < 0 {
        seq!['-'] + dec_digits((-i) as nat)
    } else {
        dec_digits(i as nat)
    }
}

/// The marker returned for property values the bridge does not decode.
pub open spec fn unknown_marker() -> Seq<char> {
    "UNKNOWN"@
}

/// What coercion returns for each value: text and pre-rendered decimals
/// unchanged, integers in decimal, everything else the unknown marker.
pub open spec fn coerced(v: PropValue) -> Seq<char> {
    match v {
        PropValue::Text(s) => s@,
        PropValue::Int(i) => dec_repr(i as int),
        PropValue::Float(d) => d@,
        PropValue::Unsupported => unknown_marker(),
    }
}

/// The one-character string for a decimal digit.
fn digit_str(d: u64) -> (r: &'static str)
    requires
        d < 10,
    ensures
        r@ == seq![digit_char(d as int)],
{
    proof {
        reveal_strlit("0");
        reveal_strlit("1");
        reveal_strlit("2");
        reveal_strlit("3");
        reveal_strlit("4");
        reveal_strlit("5");
        reveal_strlit("6");
        reveal_strlit("7");
        reveal_strlit("8");
        reveal_strlit("9");
    }
    let r: &'static str = if d == 0 {
        "0"
    } else if d == 1 {
        "1"
    } else if d == 2 {
        "2"
    } else if d == 3 {
        "3"
    } else if d == 4 {
        "4"
    } else if d == 5 {
        "5"
    } else if d == 6 {
        "6"
    } else if d == 7 {
        "7"
    } else if d == 8 {
        "8"
    } else {
        "9"
    };
    proof {
        assert(r@ =~= seq![digit_char(d as int)]);
    }
    r
}

/// The digit characters of a digit stack read from the top: the last element
/// of `digs` first.
spec fn stacked_chars(digs: Seq<u64>) -> Seq<char>
    decreases digs.len(),
{
    if digs.len() == 0 {
        Seq::empty()
    } else {
        seq![digit_char(digs.last() as int)] + stacked_chars(digs.drop_last())
    }
}

/// Renders an unsigned number in decimal, most significant digit first.
pub fn u64_to_decimal(m: u64) -> (r: String)
    ensures
        r@ == dec_digits(m as nat),
{
    let mut n: u64 = m;
    let mut digs: Vec<u64> = Vec::new();
    if n == 0 {
        return String::from_str(digit_str(0));
    }
    while n > 0
        invariant
            forall|k: int| 0 <= k < digs@.len() ==> digs@[k] < 10,
            dec_digits(m as nat) == if n == 0 {
                stacked_chars(digs@)
            } else {
                dec_digits(n as nat) + stacked_chars(digs@)
            },
        decreases n,
    {
        let d: u64 = n % 10;
        let ghost old_digs = digs@;
        let ghost old_n = n as nat;
        digs.push(d);
        n = n / 10;
        proof {
            assert(digs@.drop_last() =~= old_digs);
            assert(stacked_chars(digs@) == seq![digit_char(d as int)] + stacked_chars(old_digs));
            if old_n < 10 {
                assert(dec_digits(old_n) =~= seq![digit_char(d as int)]);
                assert(dec_digits(old_n) + stacked_chars(old_digs) =~= stacked_chars(digs@));
            } else {
                assert(dec_digits(old_n) == dec_digits(old_n / 10) + seq![digit_char(d as int)]);
                assert(dec_digits(old_n) + stacked_chars(old_digs) =~= dec_digits(
                    (n as nat),
                ) + stacked_chars(digs@));
            }
        }
    }
    let mut s = String::new();
    let mut j: usize = digs.len();
    proof {
        assert(digs@.subrange(0, j as int) =~= digs@);
        assert(s@ + stacked_chars(digs@) =~= stacked_chars(digs@));
    }
    while j > 0
        invariant
            j <= digs@.len(),
            forall|k: int| 0 <= k < digs@.len() ==> digs@[k] < 10,
            dec_digits(m as nat) == stacked_chars(digs@),
            s@ + stacked_chars(digs@.subrange(0, j as int)) == dec_digits(m as nat),
        decreases j,
    {
        j = j - 1;
        let ghost old_s = s@;
        s.append(digit_str(digs[j]));
        proof {
            let prefix = digs@.subrange(0, j as int);
            let upto = digs@.subrange(0, j + 1 as int);
            assert(upto.drop_last() =~= prefix);
            assert(stacked_chars(upto) == seq![digit_char(digs@[j as int] as int)]
                + stacked_chars(prefix));
            assert(s@ + stacked_chars(prefix) =~= (old_s + stacked_chars(upto)));
        }
    }
    proof {
        assert(digs@.subrange(0, 0) =~= Seq::<u64>::empty());
        assert(s@ =~= s@ + stacked_chars(digs@.subrange(0, 0)));
    }
    s
}

/// Renders a signed integer in decimal.
pub fn i64_to_decimal(v: i64) -> (r: String)
    ensures
        r@ == dec_repr(v as int),
{
    if v >= 0 {
        u64_to_decimal(v as u64)
    } else {
        let wide: i128 = v as i128;
        let mag: u64 = (-wide) as u64;
        let mut s = String::from_str("-");
        let digits = u64_to_decimal(mag);
        s.append(digits.as_str());
        proof {
            reveal_strlit("-");
            assert("-"@ =~= seq!['-']);
        }
        s
    }
}

/// Coerces one property value to its published string form. Total: every
/// value yields a string, and undecoded shapes yield exactly the unknown
/// marker.
pub fn coerce(v: &PropValue) -> (r: String)
    ensures
        r@ == coerced(*v),
{
    match v {
        PropValue::Text(s) => s.clone(),
        PropValue::Int(i) => i64_to_decimal(*i),
        PropValue::Float(d) => d.clone(),
        PropValue::Unsupported => String::from_str("UNKNOWN"),
    }
}

} // verus!
