use geoclue_bridge::coerce::PropValue;
use geoclue_bridge::publish::render_snapshot;
use geoclue_bridge::snapshot::build_snapshot;
use geoclue_bridge::detector::Tracker;

fn observe_all(ticks: &[&str]) -> Vec<String> {
    let mut t = Tracker::new();
    let mut published: Vec<String> = Vec::new();
    for cur in ticks {
        let cur = String::from(*cur);
        if t.observe(&cur) {
            published.push(cur);
        }
    }
    published
}

#[test]
fn repeats_publish_only_on_first_occurrence() {
    let published = observe_all(&[
        "/loc/A", "/loc/A", "/loc/A", "/loc/B", "/loc/B", "/loc/C",
    ]);
    assert_eq!(
        published,
        vec![
            String::from("/loc/A"),
            String::from("/loc/B"),
            String::from("/loc/C"),
        ]
    );
}

#[test]
fn initial_idle_reading_publishes_nothing() {
    let mut t = Tracker::new();
    assert!(!t.observe(&String::from("/")));
}

#[test]
fn idle_readings_never_publish_and_do_not_reset_the_baseline() {
    let published = observe_all(&["/", "/loc/A", "/", "/loc/A", "/loc/B"]);
    assert_eq!(published, vec![String::from("/loc/A"), String::from("/loc/B")]);
}

#[test]
fn a_location_seen_again_later_publishes_again() {
    let published = observe_all(&["/loc/A", "/loc/B", "/loc/A"]);
    assert_eq!(
        published,
        vec![
            String::from("/loc/A"),
            String::from("/loc/B"),
            String::from("/loc/A"),
        ]
    );
}

#[test]
fn failed_publication_is_isolated_and_the_loop_advances() {
    // The publication for the middle reference fails; the baseline still
    // advances, so the loop neither retries it nor misses the next change,
    // and the final file content reflects the last reference.
    let ticks = ["/loc/A", "/loc/B", "/loc/C"];
    let mut t = Tracker::new();
    let mut file: Option<String> = None;
    for cur in ticks {
        let cur_s = String::from(cur);
        if t.observe(&cur_s) {
            if cur != "/loc/B" {
                let props = vec![(String::from("Ref"), PropValue::Text(cur_s.clone()))];
                let snap = build_snapshot(&props);
                file = Some(render_snapshot(&snap));
            }
        }
    }
    assert_eq!(file.unwrap(), "{\"Ref\":\"/loc/C\"}");
}

#[test]
fn a_failed_reference_is_not_retried_until_it_changes() {
    // The baseline advances even when publication fails, so observing the
    // same reference again attempts nothing; only a change does.
    let published = observe_all(&["/loc/A", "/loc/B", "/loc/B", "/loc/B", "/loc/C"]);
    assert_eq!(
        published,
        vec![
            String::from("/loc/A"),
            String::from("/loc/B"),
            String::from("/loc/C"),
        ]
    );
}

#[test]
fn end_to_end_against_a_mock_location_service() {
    // The mock service reports /loc/1 on ticks 1 and 2, and /loc/2 on
    // tick 3, each reference with its own property bag.
    let mut t = Tracker::new();
    let mut file: Option<String> = None;
    let mut write_ticks: Vec<u32> = Vec::new();
    for tick in 1..=3u32 {
        let current = if tick <= 2 { "/loc/1" } else { "/loc/2" };
        let cur_s = String::from(current);
        if t.observe(&cur_s) {
            let props = if current == "/loc/1" {
                vec![
                    (String::from("Latitude"), PropValue::Float(51.5f64.to_string())),
                    (String::from("Longitude"), PropValue::Float((-0.12f64).to_string())),
                    (String::from("Accuracy"), PropValue::Int(10)),
                ]
            } else {
                vec![
                    (String::from("Latitude"), PropValue::Float(48.85f64.to_string())),
                    (String::from("Longitude"), PropValue::Float(2.35f64.to_string())),
                    (String::from("Accuracy"), PropValue::Int(5)),
                ]
            };
            let snap = build_snapshot(&props);
            file = Some(render_snapshot(&snap));
            write_ticks.push(tick);
        }
        if tick == 1 {
            let parsed: serde_json::Value =
                serde_json::from_str(file.as_ref().unwrap()).unwrap();
            let mut expected = serde_json::Map::new();
            expected.insert(
                String::from("Latitude"),
                serde_json::Value::String(String::from("51.5")),
            );
            expected.insert(
                String::from("Longitude"),
                serde_json::Value::String(String::from("-0.12")),
            );
            expected.insert(
                String::from("Accuracy"),
                serde_json::Value::String(String::from("10")),
            );
            assert_eq!(parsed, serde_json::Value::Object(expected));
        }
    }
    // No intervening write between ticks 1 and 3.
    assert_eq!(write_ticks, vec![1, 3]);
    let parsed: serde_json::Value = serde_json::from_str(file.as_ref().unwrap()).unwrap();
    let mut expected = serde_json::Map::new();
    expected.insert(
        String::from("Latitude"),
        serde_json::Value::String(String::from("48.85")),
    );
    expected.insert(
        String::from("Longitude"),
        serde_json::Value::String(String::from("2.35")),
    );
    expected.insert(
        String::from("Accuracy"),
        serde_json::Value::String(String::from("5")),
    );
    assert_eq!(parsed, serde_json::Value::Object(expected));
}
