use keystroke_visualizer::collector::{
    control_reply_outcome, decide_control, handle_event, load_collector_state, record_event,
    KeyEvent,
};
use keystroke_visualizer::model::{
    CollectorState, KeyboardLayout, SessionSnapshot, SessionStatus, Timestamp,
};
use keystroke_visualizer::table::CountTable;

fn empty_snapshot(id: &str) -> SessionSnapshot {
    SessionSnapshot {
        session_id: id.to_string(),
        name: None,
        layout: KeyboardLayout::Ansi104,
        status: SessionStatus::Running,
        started_at: Timestamp::now(),
        stopped_at: None,
        last_updated_at: Timestamp::now(),
        total_keypresses: 0,
        unique_keys: 0,
        dropped_events: 0,
        capture_error: None,
        report_path: None,
        last_flush_at: None,
        clean_shutdown: false,
        key_counts: CountTable::new(),
        minute_buckets: CountTable::new(),
    }
}

fn press(key: &str) -> KeyEvent {
    KeyEvent::Press(key.to_string())
}

fn release(key: &str) -> KeyEvent {
    KeyEvent::Release(key.to_string())
}

#[test]
fn handle_event_counts_unique_presses() {
    let snapshot = empty_snapshot("abc");
    let mut state = load_collector_state(&snapshot, 0);
    handle_event(&mut state, press("KeyA"));
    handle_event(&mut state, press("KeyA"));
    handle_event(&mut state, release("KeyA"));
    handle_event(&mut state, press("KeyA"));

    assert_eq!(state.total_keypresses, 2);
    assert_eq!(state.key_counts.get("KeyA"), Some(2));
}

#[test]
fn record_event_counts_keys_and_minutes() {
    let mut state = load_collector_state(&empty_snapshot("s1"), 5);
    state.dirty = false;
    record_event(&mut state, &press("KeyB"), "2026-01-01 12:00");
    record_event(&mut state, &press("KeyA"), "2026-01-01 12:00");
    record_event(&mut state, &release("KeyA"), "2026-01-01 12:00");
    record_event(&mut state, &press("KeyA"), "2026-01-01 12:01");
    record_event(&mut state, &KeyEvent::Other, "2026-01-01 12:02");
    assert_eq!(state.total_keypresses, 3);
    assert!(state.dirty);
    assert_eq!(state.key_counts.get("KeyA"), Some(2));
    assert_eq!(state.key_counts.get("KeyB"), Some(1));
    assert_eq!(state.key_counts.get("KeyC"), None);
    assert_eq!(state.minute_buckets.get("2026-01-01 12:00"), Some(2));
    assert_eq!(state.minute_buckets.get("2026-01-01 12:01"), Some(1));
    assert_eq!(state.minute_buckets.len(), 2);
    // Keys come out in key order.
    assert_eq!(state.key_counts.key_at(0), "KeyA");
    assert_eq!(state.key_counts.key_at(1), "KeyB");
    assert_eq!(state.flush_seq, 5);
}

#[test]
fn held_key_repeat_changes_nothing() {
    let mut state = load_collector_state(&empty_snapshot("s2"), 0);
    record_event(&mut state, &press("Space"), "m");
    state.dirty = false;
    record_event(&mut state, &press("Space"), "m");
    record_event(&mut state, &press("Space"), "m");
    assert_eq!(state.total_keypresses, 1);
    assert_eq!(state.key_counts.get("Space"), Some(1));
    assert!(!state.dirty);
}

#[test]
fn resumed_state_keeps_counts_and_is_dirty() {
    let mut snapshot = empty_snapshot("s3");
    snapshot.key_counts.set("KeyQ", 4);
    snapshot.minute_buckets.set("2026-02-02 10:00", 4);
    snapshot.total_keypresses = 4;
    snapshot.dropped_events = 1;
    snapshot.capture_error = Some("boom".to_string());
    let state = CollectorState::from_snapshot(&snapshot, 9);
    assert_eq!(state.session_id, "s3");
    assert_eq!(state.total_keypresses, 4);
    assert_eq!(state.dropped_events, 1);
    assert_eq!(state.capture_error.as_deref(), Some("boom"));
    assert_eq!(state.key_counts.get("KeyQ"), Some(4));
    assert!(state.dirty);
    assert_eq!(state.flush_seq, 9);
}

#[test]
fn flush_advances_sequence_and_clears_dirty() {
    let mut state = load_collector_state(&empty_snapshot("s4"), 2);
    record_event(&mut state, &press("KeyA"), "2026-01-01 00:00");
    record_event(&mut state, &press("KeyB"), "2026-01-01 00:00");
    let (id, seq, flush) = state.begin_flush();
    assert_eq!(id, "s4");
    assert_eq!(seq, 3);
    assert_eq!(state.flush_seq, 3);
    assert!(!state.dirty);
    assert_eq!(flush.total_keypresses, 2);
    assert_eq!(flush.unique_keys, 2);
    assert_eq!(flush.key_counts.get("KeyB"), Some(1));
    assert_eq!(flush.last_flush_at, flush.last_updated_at);
    // Nothing changed since: no pending flush.
    assert!(state.take_pending_flush().is_none());
    assert_eq!(state.flush_seq, 3);
    record_event(&mut state, &press("KeyC"), "2026-01-01 00:01");
    let pending = state.take_pending_flush().expect("dirty state flushes");
    assert_eq!(pending.1, 4);
    assert_eq!(pending.2.total_keypresses, 3);
}

#[test]
fn room_check_sees_full_counters() {
    let mut state = load_collector_state(&empty_snapshot("s5"), 0);
    assert!(state.check_room(&press("KeyZ")));
    state.key_counts.set("KeyZ", u64::MAX);
    assert!(!state.check_room(&press("KeyZ")));
    // Another key, a release or a held key still has room.
    assert!(state.check_room(&press("KeyY")));
    assert!(state.check_room(&release("KeyZ")));
    state.pressed_keys.insert("KeyZ");
    assert!(state.check_room(&press("KeyZ")));
    state.minute_buckets.set("2026-01-01 00:00", u64::MAX);
    assert!(!state.check_room(&press("KeyY")));
    let mut other = load_collector_state(&empty_snapshot("s6"), 0);
    other.total_keypresses = u64::MAX;
    assert!(!other.check_room(&press("KeyA")));
    assert!(other.check_room(&KeyEvent::Other));
}

#[test]
fn press_order_is_not_kept() {
    let mut one = load_collector_state(&empty_snapshot("o1"), 0);
    let mut two = load_collector_state(&empty_snapshot("o2"), 0);
    record_event(&mut one, &press("KeyA"), "m");
    record_event(&mut one, &press("KeyC"), "m");
    record_event(&mut two, &press("KeyC"), "m");
    record_event(&mut two, &press("KeyA"), "m");
    assert_eq!(one.total_keypresses, two.total_keypresses);
    for key in ["KeyA", "KeyC"] {
        assert_eq!(one.key_counts.get(key), two.key_counts.get(key));
    }
    assert_eq!(one.key_counts.key_at(0), two.key_counts.key_at(0));
    assert_eq!(one.minute_buckets.get("m"), Some(2));
    assert_eq!(two.minute_buckets.get("m"), Some(2));
}

#[test]
fn control_requests_are_answered_by_token_and_command() {
    let d = decide_control("secret", "wrong", "stop");
    assert!(!d.ok && !d.flush && !d.stop);
    assert_eq!(d.message, "invalid token");
    let d = decide_control("secret", "secret", "status");
    assert!(d.ok && !d.flush && !d.stop);
    assert_eq!(d.message, "running");
    let d = decide_control("secret", "secret", "flush");
    assert!(d.ok && d.flush && !d.stop);
    assert_eq!(d.message, "flushed");
    let d = decide_control("secret", "secret", "stop");
    assert!(d.ok && d.flush && d.stop);
    assert_eq!(d.message, "stopped");
    let d = decide_control("secret", "secret", "reboot");
    assert!(!d.ok && !d.flush && !d.stop);
    assert_eq!(d.message, "unsupported command");
}

#[test]
fn control_reply_outcome_maps_ok_flag() {
    assert_eq!(control_reply_outcome(true, "stopped".to_string()), Ok("stopped".to_string()));
    assert_eq!(control_reply_outcome(false, "invalid token".to_string()), Err("invalid token".to_string()));
}

#[test]
fn clock_reads_a_current_instant() {
    let t = Timestamp::now();
    assert!(t.nanos < 1_000_000_000);
    // Later than 2020-01-01.
    assert!(t.secs > 1_577_836_800);
    let mut state = load_collector_state(&empty_snapshot("s7"), 0);
    handle_event(&mut state, press("KeyA"));
    assert_eq!(state.minute_buckets.len(), 1);
    let label = state.minute_buckets.key_at(0).clone();
    assert_eq!(state.minute_buckets.count_at(0), 1);
    let chars: Vec<char> = label.chars().collect();
    assert_eq!(chars.len(), 16);
    assert_eq!(chars[4], '-');
    assert_eq!(chars[7], '-');
    assert_eq!(chars[10], ' ');
    assert_eq!(chars[13], ':');
}

#[test]
fn capture_failure_is_kept_for_the_next_flush() {
    let mut state = load_collector_state(&empty_snapshot("f"), 0);
    record_event(&mut state, &press("KeyA"), "m");
    let _ = state.begin_flush();
    state.note_capture_error("hook lost".to_string());
    assert!(state.dirty);
    let (_, seq, flush) = state.take_pending_flush().expect("a failure is flushed");
    assert_eq!(seq, 2);
    assert_eq!(flush.capture_error.as_deref(), Some("hook lost"));
    assert_eq!(flush.total_keypresses, 1);
}
