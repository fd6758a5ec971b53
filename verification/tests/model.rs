use keystroke_visualizer::text::{decimal_text, signed_decimal_text};
use keystroke_visualizer::model::{KeyboardLayout, SessionSnapshot, SessionStatus, Timestamp};
use keystroke_visualizer::model::elapsed_seconds_between;
use keystroke_visualizer::table::{CountTable, KeySet};

#[test]
fn layout_names_round_trip() {
    assert_eq!(KeyboardLayout::Ansi104.as_str(), "ansi-104");
    assert_eq!(KeyboardLayout::Iso105.as_str(), "iso-105");
    assert_eq!(KeyboardLayout::parse("ansi-104"), Some(KeyboardLayout::Ansi104));
    assert_eq!(KeyboardLayout::parse("iso-105"), Some(KeyboardLayout::Iso105));
    assert_eq!(KeyboardLayout::parse("ISO-105"), None);
    assert_eq!(KeyboardLayout::parse(""), None);
}

#[test]
fn status_names_round_trip() {
    for status in [
        SessionStatus::Running,
        SessionStatus::Stopped,
        SessionStatus::Interrupted,
        SessionStatus::Failed,
    ] {
        assert_eq!(SessionStatus::parse(status.as_str()), Some(status));
    }
    assert_eq!(SessionStatus::Interrupted.as_str(), "interrupted");
    assert_eq!(SessionStatus::parse("paused"), None);
}

#[test]
fn new_snapshot_is_running_and_empty() {
    let s = SessionSnapshot::new("abc".to_string(), Some("demo".to_string()), KeyboardLayout::Iso105);
    assert_eq!(s.session_id, "abc");
    assert_eq!(s.name.as_deref(), Some("demo"));
    assert_eq!(s.layout, KeyboardLayout::Iso105);
    assert_eq!(s.status, SessionStatus::Running);
    assert_eq!(s.started_at, s.last_updated_at);
    assert!(s.stopped_at.is_none() && s.last_flush_at.is_none());
    assert_eq!(s.total_keypresses, 0);
    assert_eq!(s.key_counts.len(), 0);
    assert!(!s.clean_shutdown);
}

#[test]
fn elapsed_seconds_truncate_and_floor_at_zero() {
    let t = |secs: i64, nanos: u32| Timestamp::from_parts(secs, nanos).unwrap();
    assert_eq!(elapsed_seconds_between(t(100, 0), t(190, 999_999_999)), 90);
    assert_eq!(elapsed_seconds_between(t(100, 500_000_000), t(101, 400_000_000)), 0);
    assert_eq!(elapsed_seconds_between(t(100, 500_000_000), t(102, 500_000_000)), 2);
    assert_eq!(elapsed_seconds_between(t(200, 0), t(100, 0)), 0);
    assert_eq!(elapsed_seconds_between(t(-5, 0), t(5, 0)), 10);
}

#[test]
fn elapsed_seconds_count_a_leap_second_as_chrono_does() {
    let t = |secs: i64, nanos: u32| Timestamp::from_parts(secs, nanos).unwrap();
    // 12:00:59 plus 1.5 s (inside the leap second) to 12:01:05.
    assert_eq!(elapsed_seconds_between(t(43_259, 1_500_000_000), t(43_265, 0)), 5);
    // The same span read backwards is no time at all.
    assert_eq!(elapsed_seconds_between(t(43_265, 0), t(43_259, 1_500_000_000)), 0);
    // From 12:00:58 to the end of the leap second after it.
    assert_eq!(elapsed_seconds_between(t(43_258, 0), t(43_259, 1_999_999_999)), 2);
    // Across midnight chrono does not count the leap second.
    assert_eq!(elapsed_seconds_between(t(86_399, 1_500_000_000), t(86_405, 0)), 4);
    let chrono_seconds = |a: (i64, u32), b: (i64, u32)| {
        let start = chrono::DateTime::from_timestamp(a.0, a.1).unwrap();
        let end = chrono::DateTime::from_timestamp(b.0, b.1).unwrap();
        end.signed_duration_since(start).num_seconds().max(0)
    };
    for (a, b) in [
        ((43_259, 1_500_000_000), (43_265, 0)),
        ((43_265, 0), (43_259, 1_500_000_000)),
        ((43_258, 0), (43_259, 1_999_999_999)),
        ((86_399, 1_500_000_000), (86_405, 0)),
        ((86_399, 1_200_000_000), (2 * 86_400 + 10, 100)),
        ((-1, 1_700_000_000), (30, 0)),
        ((1_000, 900_000_000), (999, 100_000_000)),
    ] {
        assert_eq!(elapsed_seconds_between(t(a.0, a.1), t(b.0, b.1)), chrono_seconds(a, b));
    }
}

#[test]
fn timestamps_out_of_range_are_refused() {
    assert!(Timestamp::from_parts(0, 2_000_000_000).is_none());
    assert!(Timestamp::from_parts(i64::MAX, 0).is_none());
    assert!(Timestamp::from_parts(i64::MIN, 0).is_none());
    assert_eq!(Timestamp::from_parts(7, 1_500_000_000), Some(Timestamp { secs: 7, nanos: 1_500_000_000 }));
}

#[test]
fn count_table_keeps_key_order() {
    let mut t = CountTable::new();
    t.set("b", 2);
    t.set("a", 1);
    t.set("c", 3);
    t.increment("b");
    t.increment("d");
    t.set("a", 7);
    assert_eq!(t.len(), 4);
    let keys: Vec<&str> = (0..t.len()).map(|i| t.key_at(i).as_str()).collect();
    assert_eq!(keys, vec!["a", "b", "c", "d"]);
    let counts: Vec<u64> = (0..t.len()).map(|i| t.count_at(i)).collect();
    assert_eq!(counts, vec![7, 3, 3, 1]);
    assert_eq!(t.get("zz"), None);
    let copy = t.duplicate();
    assert_eq!(copy.get("a"), Some(7));
    assert_eq!(copy.len(), 4);
}

#[test]
fn count_table_orders_by_code_point() {
    let mut t = CountTable::new();
    for k in ["Z", "a", "AB", "A", "é", ""] {
        t.increment(k);
    }
    let keys: Vec<&str> = (0..t.len()).map(|i| t.key_at(i).as_str()).collect();
    let mut expected = vec!["Z", "a", "AB", "A", "é", ""];
    expected.sort();
    assert_eq!(keys, expected);
}

#[test]
fn key_set_insert_and_remove() {
    let mut s = KeySet::new();
    assert!(s.insert("KeyA"));
    assert!(!s.insert("KeyA"));
    assert!(s.insert("KeyB"));
    s.remove("KeyA");
    assert!(s.insert("KeyA"));
    s.remove("missing");
    assert!(!s.insert("KeyB"));
}

#[test]
fn timestamps_as_rfc3339_text() {
    let epoch = Timestamp::from_parts(0, 0).unwrap();
    assert_eq!(epoch.to_rfc3339().as_deref(), Some("1970-01-01T00:00:00+00:00"));
    let t = Timestamp::from_parts(1_767_268_800, 500_000_000).unwrap();
    assert_eq!(t.to_rfc3339().as_deref(), Some("2026-01-01T12:00:00.500+00:00"));
    let parsed = Timestamp::parse_rfc3339("2026-01-01T14:00:00.5+02:00").unwrap();
    assert_eq!(parsed, t);
    assert_eq!(Timestamp::parse_rfc3339(&t.to_rfc3339().unwrap()), Ok(t));
    assert_eq!(Timestamp::parse_rfc3339("yesterday"), Err("premature end of input".to_string()));
    assert_eq!(
        Timestamp::parse_rfc3339("2026-01-01T12:00:00+00:00x"),
        Err("trailing input".to_string())
    );
    assert_eq!(
        Timestamp::parse_rfc3339("2026-13-01T12:00:00+00:00"),
        Err("input is out of range".to_string())
    );
    let far = Timestamp::from_parts(4_000_000_000_000_000_000, 0).unwrap();
    assert_eq!(far.to_rfc3339(), None);
}

#[test]
fn numbers_in_decimal() {
    assert_eq!(decimal_text(0), "0");
    assert_eq!(decimal_text(7), "7");
    assert_eq!(decimal_text(10), "10");
    assert_eq!(decimal_text(u64::MAX), u64::MAX.to_string());
    assert_eq!(signed_decimal_text(-1), "-1");
    assert_eq!(signed_decimal_text(i64::MIN), i64::MIN.to_string());
    assert_eq!(signed_decimal_text(305), "305");
}
