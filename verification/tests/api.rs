use keystroke_visualizer::api::{
    build_report, duration_seconds, history_excluding, peak_minute, recent_history,
};
use keystroke_visualizer::model::{KeyboardLayout, SessionRecord, SessionSnapshot, SessionStatus, Timestamp};
use keystroke_visualizer::table::CountTable;

fn at(secs: i64) -> Timestamp {
    Timestamp::from_parts(secs, 0).unwrap()
}

fn session(id: &str, start: i64, end: Option<i64>, updated: i64) -> SessionSnapshot {
    let mut s = SessionSnapshot::new(id.to_string(), Some(format!("n-{id}")), KeyboardLayout::Ansi104);
    s.started_at = at(start);
    s.stopped_at = end.map(at);
    s.last_updated_at = at(updated);
    if end.is_some() {
        s.status = SessionStatus::Stopped;
    }
    s
}

#[test]
fn duration_uses_stop_or_last_update() {
    assert_eq!(duration_seconds(&session("a", 100, Some(160), 500)), 60);
    assert_eq!(duration_seconds(&session("b", 100, None, 130)), 30);
    assert_eq!(duration_seconds(&session("c", 100, None, 50)), 0);
}

#[test]
fn peak_is_last_busiest_minute() {
    let mut buckets = CountTable::new();
    assert_eq!(peak_minute(&buckets), None);
    buckets.set("12:00", 5);
    buckets.set("12:01", 9);
    buckets.set("12:02", 9);
    buckets.set("12:03", 2);
    assert_eq!(peak_minute(&buckets), Some(("12:02".to_string(), 9)));
}

#[test]
fn history_skips_current_session_and_limits() {
    let records: Vec<SessionRecord> = ["a", "cur", "b", "c"]
        .iter()
        .enumerate()
        .map(|(i, id)| SessionRecord::created(session(id, 100 * i as i64, Some(100 * i as i64 + 42), 0)))
        .collect();
    let all = recent_history(&records);
    assert_eq!(all.len(), 4);
    assert_eq!(all[1].session_id, "cur");
    assert_eq!(all[2].duration_seconds, 42);
    assert_eq!(all[2].status, "stopped");
    assert_eq!(all[2].name.as_deref(), Some("n-b"));
    let h = history_excluding(&records, "cur", 2);
    let ids: Vec<&str> = h.iter().map(|e| e.session_id.as_str()).collect();
    assert_eq!(ids, vec!["a", "b"]);
    let h = history_excluding(&records, "cur", 10);
    assert_eq!(h.len(), 3);
    assert!(history_excluding(&records, "x", 0).is_empty());
}

#[test]
fn report_assembles_all_counts() {
    let mut s = session("cur", 1000, Some(1120), 1120);
    s.key_counts.set("KeyA", 3);
    s.key_counts.set("Space", 5);
    s.key_counts.set("F13", 1);
    s.minute_buckets.set("2026-01-01 10:00", 4);
    s.minute_buckets.set("2026-01-01 10:01", 5);
    s.total_keypresses = 9;
    s.unique_keys = 3;
    s.dropped_events = 2;
    s.clean_shutdown = true;
    let recent = vec![SessionRecord::created(session("cur", 1000, None, 1000)), SessionRecord::created(session("old", 10, Some(20), 20))];
    let r = build_report(&s, &recent, 10);
    assert_eq!(r.session.session_id, "cur");
    assert_eq!(r.session.status, "stopped");
    assert_eq!(r.session.layout, "ansi-104");
    assert_eq!(r.session.duration_seconds, 120);
    assert_eq!(r.session.privacy_mode, "aggregate-only");
    assert!(r.session.clean_shutdown);
    assert_eq!(r.summary.total_keypresses, 9);
    assert_eq!(r.summary.unique_keys, 3);
    assert_eq!(r.summary.dropped_events, 2);
    assert_eq!(r.summary.peak_minute, Some(5));
    assert_eq!(r.summary.peak_minute_bucket.as_deref(), Some("2026-01-01 10:01"));
    assert_eq!(r.activity.len(), 2);
    assert_eq!(r.activity[0].minute_bucket, "2026-01-01 10:00");
    assert_eq!(r.activity[0].keypresses, 4);
    let usage: Vec<(&str, &str, u64)> = r
        .key_usage
        .iter()
        .map(|e| (e.key_id.as_str(), e.display_label.as_str(), e.count))
        .collect();
    assert_eq!(usage, vec![("Space", "Space", 5), ("KeyA", "A", 3), ("F13", "F13", 1)]);
    assert_eq!(r.keyboard.layout, "ansi-104");
    assert_eq!(r.keyboard.max_count, 5);
    assert_eq!(r.keyboard.keys.len(), 74);
    let space = r.keyboard.keys.iter().find(|k| k.key_id == "Space").unwrap();
    assert_eq!(space.count, 5);
    let esc = r.keyboard.keys.iter().find(|k| k.key_id == "Escape").unwrap();
    assert_eq!((esc.label.as_str(), esc.count), ("Esc", 0));
    assert_eq!(r.history.len(), 1);
    assert_eq!(r.history[0].session_id, "old");
}

#[test]
fn empty_session_report() {
    let s = session("e", 0, None, 0);
    let r = build_report(&s, &Vec::new(), 10);
    assert_eq!(r.summary.peak_minute, None);
    assert_eq!(r.summary.peak_minute_bucket, None);
    assert!(r.activity.is_empty() && r.key_usage.is_empty() && r.history.is_empty());
    assert_eq!(r.keyboard.max_count, 0);
    assert!(r.keyboard.keys.iter().all(|k| k.count == 0));
}
