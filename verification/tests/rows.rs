use keystroke_visualizer::model::{
    KeyboardLayout, RuntimeInfo, SessionSnapshot, SessionStatus, Timestamp,
};
use keystroke_visualizer::rows::{
    decode_runtime, decode_session, encode_runtime, encode_session, RowError,
};
use keystroke_visualizer::table::CountTable;

fn at(secs: i64, nanos: u32) -> Timestamp {
    Timestamp::from_parts(secs, nanos).unwrap()
}

fn sample() -> SessionSnapshot {
    let mut s = SessionSnapshot::new("abc".to_string(), Some("demo".to_string()), KeyboardLayout::Iso105);
    s.status = SessionStatus::Interrupted;
    s.started_at = at(1_767_225_600, 0);
    s.stopped_at = Some(at(1_767_229_200, 250_000_000));
    s.last_updated_at = at(1_767_229_200, 250_000_000);
    s.last_flush_at = None;
    s.total_keypresses = u64::MAX;
    s.unique_keys = 2;
    s.dropped_events = 3;
    s.capture_error = Some("daemon died".to_string());
    s.clean_shutdown = true;
    s
}

#[test]
fn session_rows_store_names_texts_and_integers() {
    let s = sample();
    let row = encode_session(&s).expect("times are writable");
    assert_eq!(row.session_id, "abc");
    assert_eq!(row.layout, "iso-105");
    assert_eq!(row.status, "interrupted");
    assert_eq!(row.started_at, "2026-01-01T00:00:00+00:00");
    assert_eq!(row.stopped_at.as_deref(), Some("2026-01-01T01:00:00.250+00:00"));
    assert_eq!(row.last_flush_at, None);
    assert_eq!(row.total_keypresses, -1);
    assert_eq!(row.unique_keys, 2);
    assert_eq!(row.clean_shutdown, 1);
}

#[test]
fn session_rows_read_back() {
    let s = sample();
    let row = encode_session(&s).unwrap();
    let mut counts = CountTable::new();
    counts.set("KeyA", 2);
    let back = decode_session(&row, counts, CountTable::new()).expect("row reads back");
    assert_eq!(back.session_id, s.session_id);
    assert_eq!(back.name, s.name);
    assert_eq!(back.layout, s.layout);
    assert_eq!(back.status, s.status);
    assert_eq!(back.started_at, s.started_at);
    assert_eq!(back.stopped_at, s.stopped_at);
    assert_eq!(back.last_updated_at, s.last_updated_at);
    assert_eq!(back.last_flush_at, s.last_flush_at);
    assert_eq!(back.total_keypresses, u64::MAX);
    assert_eq!(back.unique_keys, 2);
    assert_eq!(back.dropped_events, 3);
    assert_eq!(back.capture_error, s.capture_error);
    assert!(back.clean_shutdown);
    assert_eq!(back.key_counts.get("KeyA"), Some(2));
}

#[test]
fn bad_rows_name_the_first_bad_column() {
    let s = sample();
    let mut row = encode_session(&s).unwrap();
    row.started_at = "not a time".to_string();
    row.status = "paused".to_string();
    match decode_session(&row, CountTable::new(), CountTable::new()) {
        Err(RowError::UnknownStatus(v)) => assert_eq!(v, "paused"),
        other => panic!("unexpected {other:?}"),
    }
    let err = decode_session(&row, CountTable::new(), CountTable::new()).unwrap_err();
    assert_eq!(
        err.describe(),
        "Conversion error from type Text at index: 6, unknown session status paused"
    );
    row.layout = "dvorak".to_string();
    let err = decode_session(&row, CountTable::new(), CountTable::new()).unwrap_err();
    assert_eq!(
        err.describe(),
        "Conversion error from type Text at index: 6, unknown keyboard layout dvorak"
    );
    row.layout = "ansi-104".to_string();
    row.status = "running".to_string();
    row.stopped_at = Some("2026-01-01T01:00:00+00:00 extra".to_string());
    let err = decode_session(&row, CountTable::new(), CountTable::new()).unwrap_err();
    match &err {
        RowError::BadTimestamp(v, m) => {
            assert_eq!(v, "not a time");
            assert_eq!(m, "premature end of input");
        }
        other => panic!("unexpected {other:?}"),
    }
    assert_eq!(
        err.describe(),
        "Conversion error from type Text at index: 10, premature end of input"
    );
    row.started_at = "2026-01-01T00:00:00+00:00".to_string();
    let err = decode_session(&row, CountTable::new(), CountTable::new()).unwrap_err();
    assert_eq!(
        err.describe(),
        "Conversion error from type Text at index: 31, trailing input"
    );
    row.stopped_at = None;
    row.last_updated_at = "2026-02-30T00:00:00+00:00".to_string();
    let err = decode_session(&row, CountTable::new(), CountTable::new()).unwrap_err();
    assert_eq!(
        err.describe(),
        "Conversion error from type Text at index: 25, input is out of range"
    );
}

#[test]
fn runtime_rows_name_their_bad_time() {
    let mut row = encode_runtime(&keystroke_visualizer::model::RuntimeInfo {
        session_id: "abc".to_string(),
        pid: 7,
        control_port: None,
        control_token: "t".to_string(),
        daemon_started_at: at(0, 0),
        heartbeat_at: None,
        flush_seq: 0,
    })
    .unwrap();
    row.heartbeat_at = Some("soon".to_string());
    match decode_runtime(&row) {
        Err(RowError::BadTimestamp(v, m)) => {
            assert_eq!(v, "soon");
            assert_eq!(m, "premature end of input");
        }
        other => panic!("unexpected {other:?}"),
    }
    row.daemon_started_at = "1970-01-01T00:00:00Z?".to_string();
    let err = decode_runtime(&row).unwrap_err();
    assert_eq!(err.describe(), "Conversion error from type Text at index: 21, trailing input");
}

#[test]
fn runtime_rows_round_trip() {
    let rt = RuntimeInfo {
        session_id: "abc".to_string(),
        pid: 4_000_000_000,
        control_port: Some(65535),
        control_token: "token".to_string(),
        daemon_started_at: at(1_767_225_600, 1),
        heartbeat_at: None,
        flush_seq: 12,
    };
    let row = encode_runtime(&rt).unwrap();
    assert_eq!(row.pid, 4_000_000_000);
    assert_eq!(row.control_port, Some(65535));
    assert_eq!(row.daemon_started_at, "2026-01-01T00:00:00.000000001+00:00");
    let back = decode_runtime(&row).unwrap();
    assert_eq!(back.pid, rt.pid);
    assert_eq!(back.control_port, rt.control_port);
    assert_eq!(back.daemon_started_at, rt.daemon_started_at);
    assert_eq!(back.heartbeat_at, None);
    assert_eq!(back.flush_seq, 12);
}

#[test]
fn unwritable_times_are_refused() {
    let mut s = sample();
    s.started_at = at(4_000_000_000_000_000_000, 0);
    assert!(encode_session(&s).is_none());
}

#[test]
fn exact_times_survive_storage_at_the_edges() {
    let times = [
        (-62_167_219_200, 0),
        (253_402_300_799, 999_999_999),
        (43_259, 1_500_000_000),
        (-1, 1_000_000_000),
        (1_767_225_600, 120_000),
        (1_767_225_659, 1_999_999_999),
    ];
    for (secs, nanos) in times {
        let mut s = sample();
        s.started_at = at(secs, nanos);
        s.stopped_at = Some(at(secs, nanos));
        s.last_updated_at = at(secs, nanos);
        s.last_flush_at = Some(at(secs, nanos));
        let row = encode_session(&s).expect("an exact time is written");
        let back = decode_session(&row, CountTable::new(), CountTable::new()).expect("and read");
        assert_eq!(back.started_at, s.started_at);
        assert_eq!(back.stopped_at, s.stopped_at);
        assert_eq!(back.last_updated_at, s.last_updated_at);
        assert_eq!(back.last_flush_at, s.last_flush_at);
    }
    let mut s = sample();
    s.started_at = at(43_259, 1_500_000_000);
    let row = encode_session(&s).unwrap();
    assert_eq!(row.started_at, "1970-01-01T12:00:60.500+00:00");
}
