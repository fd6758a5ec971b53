//! The stored form of sessions: one row per session and one per attached
//! collector, with names for layouts and statuses, RFC 3339 text for times,
//! signed 64-bit integers for counts and 0/1 for flags. Decoding an encoded
//! row gives the session back whenever chrono reads back the times it wrote.
use crate::model::{
    opt_time_wf, rfc3339_exact, rfc3339_text, timestamp_read, KeyboardLayout, RuntimeInfo, SessionSnapshot,
    SessionStatus, Timestamp,
};
use crate::report::byte_len;
use crate::session::{bool_to_int, copy_opt_string};
use crate::text::{decimal, decimal_text};
use crate::table::CountTable;
use vstd::prelude::*;

verus! {

/// A session as stored.
#[derive(Clone, Debug)]
pub struct SessionRow {
    pub session_id: String,
    pub name: Option<String>,
    pub layout: String,
    pub status: String,
    pub started_at: String,
    pub stopped_at: Option<String>,
    pub last_updated_at: String,
    pub total_keypresses: i64,
    pub unique_keys: i64,
    pub dropped_events: i64,
    pub capture_error: Option<String>,
    pub report_path: Option<String>,
    pub last_flush_at: Option<String>,
    pub clean_shutdown: i64,
}

/// A collector record as stored.
#[derive(Clone, Debug)]
pub struct RuntimeRow {
    pub session_id: String,
    pub pid: i64,
    pub control_port: Option<i64>,
    pub control_token: String,
    pub daemon_started_at: String,
    pub heartbeat_at: Option<String>,
    pub flush_seq: i64,
}

/// Why a stored row could not be read back.
#[derive(Clone, Debug)]
pub enum RowError {
    /// The layout column names no layout.
    UnknownLayout(String),
    /// The status column names no status.
    UnknownStatus(String),
    /// A time column could not be read: its text and chrono's reason.
    BadTimestamp(String, String),
}

/// The message of a column whose text could not be converted, as the
/// storage layer reports it: the text's length in bytes, then what was wrong.
pub open spec fn conversion_message(value: Seq<char>, detail: Seq<char>) -> Seq<char> {
    "Conversion error from type Text at index: "@ + decimal(byte_len(value) as nat) + ", "@ + detail
}

impl RowError {
    /// The message shown for the error.
    pub fn describe(&self) -> (r: String)
        ensures
            r@ == (match *self {
                RowError::UnknownLayout(v) => conversion_message(v@, "unknown keyboard layout "@ + v@),
                RowError::UnknownStatus(v) => conversion_message(v@, "unknown session status "@ + v@),
                RowError::BadTimestamp(v, m) => conversion_message(v@, m@),
            }),
    {
        let (value, mut detail) = match self {
            RowError::UnknownLayout(v) => (v, "unknown keyboard layout ".to_owned()),
            RowError::UnknownStatus(v) => (v, "unknown session status ".to_owned()),
            RowError::BadTimestamp(v, _) => (v, String::new()),
        };
        match self {
            RowError::BadTimestamp(_, m) => detail.append(m.as_str()),
            _ => detail.append(value.as_str()),
        }
        let mut text = "Conversion error from type Text at index: ".to_owned();
        let len = decimal_text(value.as_str().len() as u64);
        text.append(len.as_str());
        text.append(", ");
        text.append(detail.as_str());
        text
    }
}

/// `text` is the RFC 3339 text of `t`.
pub open spec fn time_text(t: Timestamp, text: String) -> bool {
    rfc3339_text(t.secs, t.nanos) == Some(text@)
}

/// An optional time and its optional text.
pub open spec fn opt_time_text(t: Option<Timestamp>, text: Option<String>) -> bool {
    match (t, text) {
        (Some(a), Some(b)) => time_text(a, b),
        (None, None) => true,
        _ => false,
    }
}

/// chrono can write `t` as RFC 3339 text.
pub open spec fn writable(t: Timestamp) -> bool {
    rfc3339_text(t.secs, t.nanos) is Some
}

pub open spec fn opt_writable(t: Option<Timestamp>) -> bool {
    match t {
        Some(v) => writable(v),
        None => true,
    }
}

/// The instant a stored time text denotes, when it is one in range.
pub open spec fn time_read(text: Seq<char>) -> Option<Timestamp> {
    match timestamp_read(text) {
        Ok(t) => Some(t),
        Err(_) => None,
    }
}

/// Why a stored time text cannot be read.
pub open spec fn time_error(text: Seq<char>) -> Seq<char> {
    match timestamp_read(text) {
        Ok(_) => Seq::empty(),
        Err(m) => m,
    }
}

/// The text of an optional time column that cannot be read, if it is one.
pub open spec fn opt_bad_time(text: Option<String>) -> Option<Seq<char>> {
    match text {
        Some(s) => if time_read(s@) is None {
            Some(s@)
        } else {
            None
        },
        None => None,
    }
}

/// chrono reads back the instant it writes for `t`.
pub open spec fn reads_back(t: Timestamp) -> bool {
    match rfc3339_text(t.secs, t.nanos) {
        Some(text) => time_read(text) == Some(t),
        None => false,
    }
}

pub open spec fn opt_reads_back(t: Option<Timestamp>) -> bool {
    match t {
        Some(v) => reads_back(v),
        None => true,
    }
}

/// `t` has a four-digit year and is one chrono can hold (see
/// `rfc3339_exact`): the times stored exactly.
pub open spec fn written_exactly(t: Timestamp) -> bool {
    rfc3339_exact(t.secs, t.nanos)
}

pub open spec fn opt_written_exactly(t: Option<Timestamp>) -> bool {
    match t {
        Some(v) => written_exactly(v),
        None => true,
    }
}

/// Every time of the session is stored exactly.
pub open spec fn session_times_exact(s: SessionSnapshot) -> bool {
    &&& written_exactly(s.started_at)
    &&& opt_written_exactly(s.stopped_at)
    &&& written_exactly(s.last_updated_at)
    &&& opt_written_exactly(s.last_flush_at)
}

/// Every time of the collector record is stored exactly.
pub open spec fn runtime_times_exact(rt: RuntimeInfo) -> bool {
    &&& written_exactly(rt.daemon_started_at)
    &&& opt_written_exactly(rt.heartbeat_at)
}

/// `row` is the stored form of `s`.
pub open spec fn session_encoded(s: SessionSnapshot, row: SessionRow) -> bool {
    &&& row.session_id == s.session_id
    &&& row.name == s.name
    &&& row.layout@ == s.layout.name_of()
    &&& row.status@ == s.status.name_of()
    &&& time_text(s.started_at, row.started_at)
    &&& opt_time_text(s.stopped_at, row.stopped_at)
    &&& time_text(s.last_updated_at, row.last_updated_at)
    &&& row.total_keypresses == s.total_keypresses as i64
    &&& row.unique_keys == s.unique_keys as i64
    &&& row.dropped_events == s.dropped_events as i64
    &&& row.capture_error == s.capture_error
    &&& row.report_path == s.report_path
    &&& opt_time_text(s.last_flush_at, row.last_flush_at)
    &&& row.clean_shutdown == (if s.clean_shutdown { 1i64 } else { 0i64 })
}

fn write_time(t: Timestamp) -> (r: Option<String>)
    ensures
        r is Some <==> writable(t),
        r matches Some(text) ==> time_text(t, text),
        written_exactly(t) ==> reads_back(t),
{
    t.to_rfc3339()
}

fn write_opt_time(t: Option<Timestamp>) -> (r: Option<Option<String>>)
    ensures
        r is Some <==> opt_writable(t),
        r matches Some(text) ==> opt_time_text(t, text),
        opt_written_exactly(t) ==> opt_reads_back(t),
{
    match t {
        Some(v) => match write_time(v) {
            Some(text) => Some(Some(text)),
            None => None,
        },
        None => Some(None),
    }
}

/// The stored form of a session; none when chrono cannot write one of its
/// times. A session whose times are all stored exactly always has one, and
/// reading it back gives the session again.
pub fn encode_session(s: &SessionSnapshot) -> (r: Option<SessionRow>)
    ensures
        r is Some <==> (writable(s.started_at) && opt_writable(s.stopped_at) && writable(
            s.last_updated_at,
        ) && opt_writable(s.last_flush_at)),
        r matches Some(row) ==> session_encoded(*s, row),
        session_times_exact(*s) ==> (r matches Some(row) && session_row_readable(row) && forall|
            back: SessionSnapshot,
        | session_decoded(row, s.key_counts, s.minute_buckets, back) ==> back == *s),
{
    let started_at = write_time(s.started_at)?;
    let stopped_at = write_opt_time(s.stopped_at)?;
    let last_updated_at = write_time(s.last_updated_at)?;
    let last_flush_at = write_opt_time(s.last_flush_at)?;
    let row = SessionRow {
            session_id: s.session_id.clone(),
            name: copy_opt_string(&s.name),
            layout: s.layout.as_str().to_owned(),
            status: s.status.as_str().to_owned(),
            started_at,
            stopped_at,
            last_updated_at,
            total_keypresses: s.total_keypresses as i64,
            unique_keys: s.unique_keys as i64,
            dropped_events: s.dropped_events as i64,
            capture_error: copy_opt_string(&s.capture_error),
            report_path: copy_opt_string(&s.report_path),
            last_flush_at,
            clean_shutdown: bool_to_int(s.clean_shutdown),
        };
    proof {
        if session_times_exact(*s) {
            lemma_session_row_round_trip(*s, row);
        }
    }
    Some(row)
}

fn read_time(text: &String) -> (r: Result<Timestamp, RowError>)
    ensures
        match time_read(text@) {
            Some(t) => r == Ok::<Timestamp, RowError>(t),
            None => r matches Err(RowError::BadTimestamp(v, m)) && v@ == text@ && m@ == time_error(text@),
        },
{
    match Timestamp::parse_rfc3339(text.as_str()) {
        Ok(t) => Ok(t),
        Err(m) => Err(RowError::BadTimestamp(text.clone(), m)),
    }
}

fn read_opt_time(text: &Option<String>) -> (r: Result<Option<Timestamp>, RowError>)
    ensures
        match *text {
            Some(s) => match time_read(s@) {
                Some(t) => r == Ok::<Option<Timestamp>, RowError>(Some(t)),
                None => r matches Err(RowError::BadTimestamp(v, m)) && v@ == s@ && m@ == time_error(s@),
            },
            None => r == Ok::<Option<Timestamp>, RowError>(None),
        },
{
    match text {
        Some(s) => match read_time(s) {
            Ok(t) => Ok(Some(t)),
            Err(e) => Err(e),
        },
        None => Ok(None),
    }
}

/// The optional time a stored optional text denotes.
pub open spec fn opt_time_read(text: Option<String>) -> Option<Option<Timestamp>> {
    match text {
        Some(s) => match time_read(s@) {
            Some(t) => Some(Some(t)),
            None => None,
        },
        None => Some(None),
    }
}

/// Every column of `row` can be read back.
pub open spec fn session_row_readable(row: SessionRow) -> bool {
    &&& exists|l: KeyboardLayout| row.layout@ == l.name_of()
    &&& exists|s: SessionStatus| row.status@ == s.name_of()
    &&& time_read(row.started_at@) is Some
    &&& opt_time_read(row.stopped_at) is Some
    &&& time_read(row.last_updated_at@) is Some
    &&& opt_time_read(row.last_flush_at) is Some
}

/// The text of the first time column of a session row, in column order
/// (start, stop, last update, last flush), that cannot be read.
pub open spec fn first_bad_session_time(row: SessionRow) -> Option<Seq<char>> {
    if time_read(row.started_at@) is None {
        Some(row.started_at@)
    } else if opt_bad_time(row.stopped_at) is Some {
        opt_bad_time(row.stopped_at)
    } else if time_read(row.last_updated_at@) is None {
        Some(row.last_updated_at@)
    } else {
        opt_bad_time(row.last_flush_at)
    }
}

/// `s` is what `row` stores, with the given count tables.
pub open spec fn session_decoded(
    row: SessionRow,
    key_counts: CountTable,
    minute_buckets: CountTable,
    s: SessionSnapshot,
) -> bool {
    &&& s.session_id == row.session_id
    &&& s.name == row.name
    &&& row.layout@ == s.layout.name_of()
    &&& row.status@ == s.status.name_of()
    &&& time_read(row.started_at@) == Some(s.started_at)
    &&& opt_time_read(row.stopped_at) == Some(s.stopped_at)
    &&& time_read(row.last_updated_at@) == Some(s.last_updated_at)
    &&& s.total_keypresses == row.total_keypresses as u64
    &&& s.unique_keys == row.unique_keys as usize
    &&& s.dropped_events == row.dropped_events as u64
    &&& s.capture_error == row.capture_error
    &&& s.report_path == row.report_path
    &&& opt_time_read(row.last_flush_at) == Some(s.last_flush_at)
    &&& s.clean_shutdown == (row.clean_shutdown != 0)
    &&& s.key_counts == key_counts
    &&& s.minute_buckets == minute_buckets
}

/// Reads a stored session back, with its count tables read separately. The
/// columns are read in order (layout, status, then the times from the start
/// on) and the first one that cannot be read is the error.
pub fn decode_session(row: &SessionRow, key_counts: CountTable, minute_buckets: CountTable) -> (r:
    Result<SessionSnapshot, RowError>)
    ensures
        r is Ok <==> session_row_readable(*row),
        r matches Ok(s) ==> session_decoded(*row, key_counts, minute_buckets, s),
        (forall|l: KeyboardLayout| row.layout@ != l.name_of()) ==> (r matches Err(
            RowError::UnknownLayout(e),
        ) && e@ == row.layout@),
        (exists|l: KeyboardLayout| row.layout@ == l.name_of()) && (forall|s: SessionStatus|
            row.status@ != s.name_of()) ==> (r matches Err(RowError::UnknownStatus(e)) && e@
            == row.status@),
        (exists|l: KeyboardLayout| row.layout@ == l.name_of()) && (exists|s: SessionStatus|
            row.status@ == s.name_of()) && first_bad_session_time(*row) is Some ==> (r matches Err(
            RowError::BadTimestamp(v, m),
        ) && first_bad_session_time(*row) == Some(v@) && m@ == time_error(v@)),
{
    let layout = match KeyboardLayout::parse(row.layout.as_str()) {
        Some(l) => l,
        None => return Err(RowError::UnknownLayout(row.layout.clone())),
    };
    let status = match SessionStatus::parse(row.status.as_str()) {
        Some(s) => s,
        None => return Err(RowError::UnknownStatus(row.status.clone())),
    };
    let started_at = read_time(&row.started_at)?;
    let stopped_at = read_opt_time(&row.stopped_at)?;
    let last_updated_at = read_time(&row.last_updated_at)?;
    let last_flush_at = read_opt_time(&row.last_flush_at)?;
    Ok(
        SessionSnapshot {
            session_id: row.session_id.clone(),
            name: copy_opt_string(&row.name),
            layout,
            status,
            started_at,
            stopped_at,
            last_updated_at,
            total_keypresses: row.total_keypresses as u64,
            unique_keys: row.unique_keys as usize,
            dropped_events: row.dropped_events as u64,
            capture_error: copy_opt_string(&row.capture_error),
            report_path: copy_opt_string(&row.report_path),
            last_flush_at,
            clean_shutdown: row.clean_shutdown != 0,
            key_counts,
            minute_buckets,
        },
    )
}

/// `row` is the stored form of the collector record `rt`.
pub open spec fn runtime_encoded(rt: RuntimeInfo, row: RuntimeRow) -> bool {
    &&& row.session_id == rt.session_id
    &&& row.pid == rt.pid as i64
    &&& row.control_port == (match rt.control_port {
        Some(p) => Some(p as i64),
        None => None,
    })
    &&& row.control_token == rt.control_token
    &&& time_text(rt.daemon_started_at, row.daemon_started_at)
    &&& opt_time_text(rt.heartbeat_at, row.heartbeat_at)
    &&& row.flush_seq == rt.flush_seq as i64
}

/// The stored form of a collector record; none when chrono cannot write one
/// of its times.
pub fn encode_runtime(rt: &RuntimeInfo) -> (r: Option<RuntimeRow>)
    ensures
        r is Some <==> (writable(rt.daemon_started_at) && opt_writable(rt.heartbeat_at)),
        r matches Some(row) ==> runtime_encoded(*rt, row),
        runtime_times_exact(*rt) ==> (r matches Some(row) && time_read(row.daemon_started_at@)
            is Some && opt_time_read(row.heartbeat_at) is Some && forall|back: RuntimeInfo|
            runtime_decoded(row, back) ==> back == *rt),
{
    let daemon_started_at = write_time(rt.daemon_started_at)?;
    let heartbeat_at = write_opt_time(rt.heartbeat_at)?;
    let control_port = match rt.control_port {
        Some(p) => Some(p as i64),
        None => None,
    };
    let row = RuntimeRow {
        session_id: rt.session_id.clone(),
        pid: rt.pid as i64,
        control_port,
        control_token: rt.control_token.clone(),
        daemon_started_at,
        heartbeat_at,
        flush_seq: rt.flush_seq as i64,
    };
    proof {
        if runtime_times_exact(*rt) {
            lemma_runtime_row_round_trip(*rt, row);
        }
    }
    Some(row)
}

/// `rt` is what `row` stores.
pub open spec fn runtime_decoded(row: RuntimeRow, rt: RuntimeInfo) -> bool {
    &&& rt.session_id == row.session_id
    &&& rt.pid == row.pid as u32
    &&& rt.control_port == (match row.control_port {
        Some(p) => Some(p as u16),
        None => None,
    })
    &&& rt.control_token == row.control_token
    &&& time_read(row.daemon_started_at@) == Some(rt.daemon_started_at)
    &&& opt_time_read(row.heartbeat_at) == Some(rt.heartbeat_at)
    &&& rt.flush_seq == row.flush_seq as u64
}

/// Reads a stored collector record back; the first time column that cannot
/// be read is the error.
pub fn decode_runtime(row: &RuntimeRow) -> (r: Result<RuntimeInfo, RowError>)
    ensures
        r is Ok <==> (time_read(row.daemon_started_at@) is Some && opt_time_read(row.heartbeat_at) is Some),
        r matches Ok(rt) ==> runtime_decoded(*row, rt),
        time_read(row.daemon_started_at@) is None ==> (r matches Err(RowError::BadTimestamp(v, m))
            && v@ == row.daemon_started_at@ && m@ == time_error(v@)),
        time_read(row.daemon_started_at@) is Some && opt_bad_time(row.heartbeat_at) is Some ==> (
        r matches Err(RowError::BadTimestamp(v, m)) && opt_bad_time(row.heartbeat_at) == Some(v@)
            && m@ == time_error(v@)),
{
    let daemon_started_at = read_time(&row.daemon_started_at)?;
    let heartbeat_at = read_opt_time(&row.heartbeat_at)?;
    let control_port = match row.control_port {
        Some(p) => Some(p as u16),
        None => None,
    };
    Ok(
        RuntimeInfo {
            session_id: row.session_id.clone(),
            pid: row.pid as u32,
            control_port,
            control_token: row.control_token.clone(),
            daemon_started_at,
            heartbeat_at,
            flush_seq: row.flush_seq as u64,
        },
    )
}

/// Storing a session and reading it back gives the session back, provided
/// chrono reads back each of its times as it wrote them (which it does for
/// every time stored exactly, see `Timestamp::to_rfc3339`).
pub proof fn lemma_session_row_round_trip(s: SessionSnapshot, row: SessionRow)
    requires
        reads_back(s.started_at),
        opt_reads_back(s.stopped_at),
        reads_back(s.last_updated_at),
        opt_reads_back(s.last_flush_at),
        session_encoded(s, row),
    ensures
        session_row_readable(row),
        forall|back: SessionSnapshot|
            session_decoded(row, s.key_counts, s.minute_buckets, back) ==> back == s,
{
    let total = s.total_keypresses;
    let dropped = s.dropped_events;
    let unique = s.unique_keys;
    assert((total as i64) as u64 == total) by (bit_vector);
    assert((dropped as i64) as u64 == dropped) by (bit_vector);
    assert((unique as i64) as usize == unique) by (bit_vector);
    assert forall|back: SessionSnapshot|
        session_decoded(row, s.key_counts, s.minute_buckets, back) implies back == s by {
        crate::model::lemma_layout_name_round_trip(s.layout, Some(back.layout));
        crate::model::lemma_status_name_round_trip(s.status, Some(back.status));
    }
}

/// Storing a collector record and reading it back gives it back, provided
/// chrono reads back each of its times as it wrote them (which it does for
/// every time stored exactly, see `Timestamp::to_rfc3339`).
pub proof fn lemma_runtime_row_round_trip(rt: RuntimeInfo, row: RuntimeRow)
    requires
        reads_back(rt.daemon_started_at),
        opt_reads_back(rt.heartbeat_at),
        runtime_encoded(rt, row),
    ensures
        time_read(row.daemon_started_at@) is Some,
        opt_time_read(row.heartbeat_at) is Some,
        forall|back: RuntimeInfo| runtime_decoded(row, back) ==> back == rt,
{
    let pid = rt.pid;
    let seq = rt.flush_seq;
    assert((pid as i64) as u32 == pid) by (bit_vector);
    assert((seq as i64) as u64 == seq) by (bit_vector);
    if let Some(p) = rt.control_port {
        assert((p as i64) as u16 == p) by (bit_vector);
    }
}

} // verus!
