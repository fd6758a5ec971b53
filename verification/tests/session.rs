use keystroke_visualizer::collector::{load_collector_state, record_event};
use keystroke_visualizer::collector::KeyEvent;
use keystroke_visualizer::model::{
    CollectorFlush, KeyboardLayout, SessionRecord, SessionSnapshot, SessionStatus, Timestamp,
};
use keystroke_visualizer::session::{
    bool_to_int, live_session_id, migration_step, needs_recovery, stop_target, StopTarget, recoverable_session, stop_outcome, yes_no, LifecycleError,
    StopOutcome,
};
use keystroke_visualizer::table::CountTable;

fn at(secs: i64) -> Timestamp {
    Timestamp::from_parts(secs, 0).unwrap()
}

#[test]
fn created_session_record_with_runtime() {
    let snapshot = SessionSnapshot::new("abc".to_string(), Some("demo".to_string()), KeyboardLayout::Ansi104);
    let started = snapshot.started_at;
    let mut record = SessionRecord::created(snapshot);
    assert!(record.runtime.is_none());
    assert_eq!(record.attach_runtime(42, "token", started), Ok(()));
    assert_eq!(record.snapshot.session_id, "abc");
    assert_eq!(record.snapshot.name.as_deref(), Some("demo"));
    assert_eq!(record.snapshot.status, SessionStatus::Running);
    let rt = record.runtime.as_ref().unwrap();
    assert_eq!(rt.pid, 42);
    assert_eq!(rt.session_id, "abc");
    assert_eq!(rt.control_token, "token");
    assert_eq!(rt.control_port, None);
    assert_eq!(rt.flush_seq, 0);
    assert_eq!(
        record.attach_runtime(43, "other", started),
        Err(LifecycleError::RuntimeAlreadyAttached)
    );
    assert_eq!(record.runtime.as_ref().unwrap().pid, 42);
    record.set_runtime_port(5050, at(1000));
    let rt = record.runtime.as_ref().unwrap();
    assert_eq!(rt.control_port, Some(5050));
    assert_eq!(rt.heartbeat_at, Some(at(1000)));
}

#[test]
fn flushed_then_interrupted_record() {
    let snapshot = SessionSnapshot::new("abc".to_string(), None, KeyboardLayout::Ansi104);
    let started = snapshot.started_at;
    let mut record = SessionRecord::created(snapshot);
    record.attach_runtime(7, "token", started).unwrap();
    let mut flush = CollectorFlush {
        total_keypresses: 3,
        unique_keys: 2,
        dropped_events: 0,
        last_updated_at: Timestamp::now(),
        last_flush_at: Timestamp::now(),
        capture_error: None,
        key_counts: CountTable::new(),
        minute_buckets: CountTable::new(),
    };
    flush.key_counts.set("KeyA", 2);
    flush.key_counts.set("KeyB", 1);
    flush.minute_buckets.set("2026-01-01 12:00", 3);
    record.apply_flush(1, &flush, at(2000));
    assert_eq!(record.runtime.as_ref().unwrap().flush_seq, 1);
    assert_eq!(record.runtime.as_ref().unwrap().heartbeat_at, Some(at(2000)));
    record.mark_interrupted(at(2001), Some("daemon died"));

    assert_eq!(record.snapshot.status, SessionStatus::Interrupted);
    assert_eq!(record.snapshot.total_keypresses, 3);
    assert_eq!(record.snapshot.key_counts.get("KeyA"), Some(2));
    assert_eq!(record.snapshot.capture_error.as_deref(), Some("daemon died"));
    assert!(record.runtime.is_none());
    assert!(!record.snapshot.clean_shutdown);
    // No new error keeps the old one.
    record.mark_interrupted(at(2002), None);
    assert_eq!(record.snapshot.capture_error.as_deref(), Some("daemon died"));
}

#[test]
fn flush_round_trip_restores_collector_counts() {
    let snapshot = SessionSnapshot::new("rt".to_string(), None, KeyboardLayout::Ansi104);
    let mut state = load_collector_state(&snapshot, 0);
    record_event(&mut state, &KeyEvent::Press("KeyA".to_string()), "2026-03-03 03:03");
    record_event(&mut state, &KeyEvent::Press("KeyB".to_string()), "2026-03-03 03:04");
    let (_, seq, flush) = state.begin_flush();
    let mut record = SessionRecord::created(snapshot);
    record.apply_flush(seq, &flush, Timestamp::now());
    assert_eq!(record.snapshot.unique_keys, 2);
    let resumed = load_collector_state(&record.snapshot, seq);
    assert_eq!(resumed.total_keypresses, 2);
    assert_eq!(resumed.key_counts.get("KeyA"), Some(1));
    assert_eq!(resumed.minute_buckets.get("2026-03-03 03:04"), Some(1));
}

#[test]
fn stopped_and_failed_sessions_drop_their_collector() {
    let snapshot = SessionSnapshot::new("s".to_string(), None, KeyboardLayout::Iso105);
    let started = snapshot.started_at;
    let mut record = SessionRecord::created(snapshot);
    record.attach_runtime(1, "t", started).unwrap();
    record.mark_stopped(at(3000), true);
    assert_eq!(record.snapshot.status, SessionStatus::Stopped);
    assert_eq!(record.snapshot.stopped_at, Some(at(3000)));
    assert_eq!(record.snapshot.last_updated_at, at(3000));
    assert!(record.snapshot.clean_shutdown);
    assert!(record.runtime.is_none());

    record.attach_runtime(2, "t", started).unwrap();
    record.mark_failed(at(3100), "hook lost");
    assert_eq!(record.snapshot.status, SessionStatus::Failed);
    assert_eq!(record.snapshot.capture_error.as_deref(), Some("hook lost"));
    assert!(!record.snapshot.clean_shutdown);
    assert!(record.runtime.is_none());
    assert_eq!(record.snapshot.stopped_at, Some(at(3000)));
}

#[test]
fn first_interrupted_unstopped_session_is_recoverable() {
    let mk = |id: &str, status: SessionStatus, stopped: Option<Timestamp>| {
        let mut s = SessionSnapshot::new(id.to_string(), None, KeyboardLayout::Ansi104);
        s.status = status;
        s.stopped_at = stopped;
        SessionRecord::created(s)
    };
    let sessions = vec![
        mk("a", SessionStatus::Stopped, Some(at(1))),
        mk("b", SessionStatus::Interrupted, Some(at(2))),
        mk("c", SessionStatus::Interrupted, None),
        mk("d", SessionStatus::Interrupted, None),
    ];
    assert_eq!(recoverable_session(&sessions), Some(2));
    assert_eq!(recoverable_session(&sessions[..2].to_vec()), None);
    assert!(needs_recovery(&sessions[0], true));
}

#[test]
fn recovery_needed_without_live_collector() {
    let snapshot = SessionSnapshot::new("x".to_string(), None, KeyboardLayout::Ansi104);
    let started = snapshot.started_at;
    let mut record = SessionRecord::created(snapshot);
    assert!(needs_recovery(&record, true));
    record.attach_runtime(9, "t", started).unwrap();
    assert!(!needs_recovery(&record, true));
    assert!(needs_recovery(&record, false));
}

#[test]
fn stop_outcomes() {
    assert!(matches!(stop_outcome(Some(Ok(())), true), StopOutcome::Stopped));
    match stop_outcome(Some(Err("refused".to_string())), false) {
        StopOutcome::Recover(m) => assert_eq!(m, "daemon exited during stop: refused"),
        other => panic!("unexpected {other:?}"),
    }
    match stop_outcome(Some(Err("refused".to_string())), true) {
        StopOutcome::Fail(m) => assert_eq!(m, "graceful shutdown failed: refused"),
        other => panic!("unexpected {other:?}"),
    }
    match stop_outcome(None, true) {
        StopOutcome::Fail(m) => {
            assert_eq!(m, "daemon control channel is not ready yet; retry stop in a moment")
        }
        other => panic!("unexpected {other:?}"),
    }
    match stop_outcome(None, false) {
        StopOutcome::Recover(m) => assert_eq!(m, "daemon exited unexpectedly"),
        other => panic!("unexpected {other:?}"),
    }
}

#[test]
fn flags_as_words_and_integers() {
    assert_eq!(yes_no(true), "yes");
    assert_eq!(yes_no(false), "no");
    assert_eq!(bool_to_int(true), 1);
    assert_eq!(bool_to_int(false), 0);
}

#[test]
fn live_mode_follows_only_a_running_session() {
    let snapshot = SessionSnapshot::new("live-1".to_string(), None, KeyboardLayout::Ansi104);
    let mut record = SessionRecord::created(snapshot);
    assert_eq!(live_session_id(&Some(record.clone())), Ok("live-1".to_string()));
    let refusal = "no active session; start one with `start` before opening live mode".to_string();
    assert_eq!(live_session_id(&None), Err(refusal.clone()));
    record.snapshot.status = SessionStatus::Stopped;
    assert_eq!(live_session_id(&Some(record)), Err(refusal));
}

#[test]
fn stop_picks_the_running_session_then_the_first_recoverable_one() {
    let record = |id: &str, status: SessionStatus| {
        let mut r = SessionRecord::created(SessionSnapshot::new(id.to_string(), None, KeyboardLayout::Ansi104));
        r.snapshot.status = status;
        r
    };
    let running = record("run", SessionStatus::Running);
    match stop_target(Some(running), vec![record("x", SessionStatus::Interrupted)]) {
        Ok(StopTarget::Running(r)) => assert_eq!(r.snapshot.session_id, "run"),
        other => panic!("unexpected {other:?}"),
    }
    let sessions = vec![
        record("done", SessionStatus::Stopped),
        record("first", SessionStatus::Interrupted),
        record("second", SessionStatus::Interrupted),
    ];
    match stop_target(None, sessions) {
        Ok(StopTarget::Recoverable(r)) => assert_eq!(r.snapshot.session_id, "first"),
        other => panic!("unexpected {other:?}"),
    }
    match stop_target(None, vec![record("done", SessionStatus::Stopped)]) {
        Err(m) => assert_eq!(m, "no active or recoverable session to stop"),
        other => panic!("unexpected {other:?}"),
    }
}

#[test]
fn schema_versions_are_recorded_or_refused() {
    assert_eq!(migration_step(0, 1), Ok(true));
    assert_eq!(migration_step(1, 1), Ok(false));
    assert_eq!(
        migration_step(12, 1),
        Err("database schema version 12 is newer than supported version 1".to_string())
    );
    assert_eq!(migration_step(-3, 1), Ok(true));
    assert_eq!(
        migration_step(i64::MAX, i64::MIN),
        Err("database schema version 9223372036854775807 is newer than supported version -9223372036854775808".to_string())
    );
}
