//! The session data model: layouts, statuses, timestamps, session snapshots,
//! runtime records and the collector's in-memory state.
use crate::table::{CountTable, KeySet};
use crate::text::text_eq;
use vstd::prelude::*;

verus! {

/// The physical keyboard layouts a session can be recorded with.
#[derive(Clone, Copy, Debug, PartialEq, Eq, Structural)]
pub enum KeyboardLayout {
    Ansi104,
    Iso105,
}

impl KeyboardLayout {
    /// The stable text name of a layout.
    pub open spec fn name_of(self) -> Seq<char> {
        match self {
            KeyboardLayout::Ansi104 => "ansi-104"@,
            KeyboardLayout::Iso105 => "iso-105"@,
        }
    }

    pub fn as_str(self) -> (r: &'static str)
        ensures
            r@ == self.name_of(),
    {
        match self {
            KeyboardLayout::Ansi104 => "ansi-104",
            KeyboardLayout::Iso105 => "iso-105",
        }
    }

    /// `r` is what parsing `value` gives: the layout of that name, or none
    /// when no layout has it.
    pub open spec fn parsed_as(value: Seq<char>, r: Option<Self>) -> bool {
        &&& (r matches Some(l) ==> value == l.name_of())
        &&& (r is None ==> forall|l: KeyboardLayout| value != l.name_of())
    }

    /// The layout whose name is `value`, if any.
    pub fn parse(value: &str) -> (r: Option<Self>)
        ensures
            Self::parsed_as(value@, r),
    {
        if text_eq(value, "ansi-104") {
            Some(KeyboardLayout::Ansi104)
        } else if text_eq(value, "iso-105") {
            Some(KeyboardLayout::Iso105)
        } else {
            None
        }
    }
}

/// Parsing the name of a layout gives that layout back.
pub proof fn lemma_layout_name_round_trip(l: KeyboardLayout, parsed: Option<KeyboardLayout>)
    requires
        KeyboardLayout::parsed_as(l.name_of(), parsed),
    ensures
        parsed == Some(l),
{
    reveal_strlit("ansi-104");
    reveal_strlit("iso-105");
    if let Some(m) = parsed {
        if m != l {
            assert(m.name_of().len() != l.name_of().len());
        }
    }
}

/// Where a session is in its life.
#[derive(Clone, Copy, Debug, PartialEq, Eq, Structural)]
pub enum SessionStatus {
    Running,
    Stopped,
    Interrupted,
    Failed,
}

impl SessionStatus {
    /// The stable text name of a status.
    pub open spec fn name_of(self) -> Seq<char> {
        match self {
            SessionStatus::Running => "running"@,
            SessionStatus::Stopped => "stopped"@,
            SessionStatus::Interrupted => "interrupted"@,
            SessionStatus::Failed => "failed"@,
        }
    }

    pub fn as_str(self) -> (r: &'static str)
        ensures
            r@ == self.name_of(),
    {
        match self {
            SessionStatus::Running => "running",
            SessionStatus::Stopped => "stopped",
            SessionStatus::Interrupted => "interrupted",
            SessionStatus::Failed => "failed",
        }
    }

    /// `r` is what parsing `value` gives: the status of that name, or none
    /// when no status has it.
    pub open spec fn parsed_as(value: Seq<char>, r: Option<Self>) -> bool {
        &&& (r matches Some(s) ==> value == s.name_of())
        &&& (r is None ==> forall|s: SessionStatus| value != s.name_of())
    }

    /// The status whose name is `value`, if any.
    pub fn parse(value: &str) -> (r: Option<Self>)
        ensures
            Self::parsed_as(value@, r),
    {
        if text_eq(value, "running") {
            Some(SessionStatus::Running)
        } else if text_eq(value, "stopped") {
            Some(SessionStatus::Stopped)
        } else if text_eq(value, "interrupted") {
            Some(SessionStatus::Interrupted)
        } else if text_eq(value, "failed") {
            Some(SessionStatus::Failed)
        } else {
            None
        }
    }
}

/// Parsing the name of a status gives that status back.
pub proof fn lemma_status_name_round_trip(s: SessionStatus, parsed: Option<SessionStatus>)
    requires
        SessionStatus::parsed_as(s.name_of(), parsed),
    ensures
        parsed == Some(s),
{
    reveal_strlit("running");
    reveal_strlit("stopped");
    reveal_strlit("interrupted");
    reveal_strlit("failed");
    if let Some(m) = parsed {
        if m != s && m.name_of().len() == s.name_of().len() {
            assert(m.name_of()[0] != s.name_of()[0]);
        }
    }
}

/// Largest magnitude of a timestamp's seconds that the library accepts.
pub const TIMESTAMP_SECS_LIMIT: i64 = 4611686018427387903;

/// An instant in UTC: whole seconds since the Unix epoch and the nanoseconds
/// past that second (up to two seconds' worth, for a leap second).
#[derive(Clone, Copy, Debug, PartialEq, Eq, Structural)]
pub struct Timestamp {
    pub secs: i64,
    pub nanos: u32,
}

impl Timestamp {
    /// The range the library works with.
    pub open spec fn wf(&self) -> bool {
        -TIMESTAMP_SECS_LIMIT <= self.secs <= TIMESTAMP_SECS_LIMIT && self.nanos < 2_000_000_000
    }

    /// Nanoseconds since the epoch.
    pub open spec fn total_nanos(&self) -> int {
        self.secs * 1_000_000_000 + self.nanos
    }

    /// A timestamp from its parts, when they are in range.
    pub fn from_parts(secs: i64, nanos: u32) -> (r: Option<Self>)
        ensures
            r is Some <==> (Timestamp { secs, nanos }).wf(),
            r matches Some(t) ==> t.secs == secs && t.nanos == nanos,
    {
        if -TIMESTAMP_SECS_LIMIT <= secs && secs <= TIMESTAMP_SECS_LIMIT && nanos < 2_000_000_000 {
            Some(Timestamp { secs, nanos })
        } else {
            None
        }
    }

    /// The current time, as the system clock reads it: at or after the
    /// epoch and never inside a leap second. Which instant it is depends on
    /// the clock and is not stated.
    pub fn now() -> (r: Self)
        ensures
            r.wf(),
            r.secs >= 0,
            r.nanos < 1_000_000_000,
    {
        let (secs, nanos) = utc_now_parts();
        Timestamp { secs, nanos }
    }
}

/// Reads the clock through `chrono::Utc::now`, giving the seconds
/// (`DateTime::timestamp`) and nanoseconds (`DateTime::timestamp_subsec_nanos`)
/// of the current instant. chrono builds that instant from the system time
/// since the epoch, so both are nonnegative, the seconds lie within chrono's
/// range (far inside `TIMESTAMP_SECS_LIMIT`) and the nanoseconds stay below
/// one second; chrono panics when the system clock reads before 1970, which
/// no clause can exclude. The value itself depends on the time and is not
/// stated.
#[verifier::external_body]
fn utc_now_parts() -> (r: (i64, u32))
    ensures
        0 <= r.0 <= TIMESTAMP_SECS_LIMIT,
        r.1 < 1_000_000_000,
{
    let now = chrono::Utc::now();
    (now.timestamp(), now.timestamp_subsec_nanos())
}

/// An optional string, by its characters.
pub open spec fn opt_text(s: Option<String>) -> Option<Seq<char>> {
    match s {
        Some(v) => Some(v@),
        None => None,
    }
}

/// The RFC 3339 text that chrono writes for the instant `secs` seconds and
/// `nanos` nanoseconds after the epoch, in UTC; none when chrono cannot
/// represent that instant.
pub uninterp spec fn rfc3339_text(secs: i64, nanos: u32) -> Option<Seq<char>>;

/// What chrono reads from an RFC 3339 text: the instant as seconds and
/// nanoseconds after the epoch, or, when it refuses the text, the message its
/// parse error is displayed with.
pub uninterp spec fn rfc3339_instant(text: Seq<char>) -> Result<(i64, u32), Seq<char>>;

/// The instants that chrono writes as RFC 3339 text with a four-digit year
/// (0000-01-01T00:00:00Z to 9999-12-31T23:59:59Z) and can hold: nanoseconds
/// below one second, or below two in the last second of a minute, where the
/// second over is a leap second.
pub open spec fn rfc3339_exact(secs: i64, nanos: u32) -> bool {
    &&& -62_167_219_200 <= secs <= 253_402_300_799
    &&& (nanos < 1_000_000_000 || (nanos < 2_000_000_000 && (secs as int) % 60 == 59))
}

/// Writes an instant as `chrono::DateTime::from_timestamp(secs, nanos)`
/// followed by `DateTime::to_rfc3339` does; `None` when `from_timestamp`
/// cannot represent the instant. The text is named, not stated. Of the
/// instants in `rfc3339_exact` the clause states what chrono's source shows:
/// `from_timestamp` accepts them (`NaiveTime::from_num_seconds_from_midnight_opt`
/// takes nanoseconds up to two seconds in a minute's last second), and
/// `write_rfc3339` writes the year as four digits, a leap second as second
/// `60` with the nanoseconds over it, every nonzero nanosecond digit that
/// matters and the offset `+00:00`, all of which `parse_from_rfc3339` reads
/// back to the same `timestamp` and `timestamp_subsec_nanos`.
#[verifier::external_body]
fn format_rfc3339(secs: i64, nanos: u32) -> (r: Option<String>)
    ensures
        opt_text(r) == rfc3339_text(secs, nanos),
        r is None ==> !rfc3339_exact(secs, nanos),
        r matches Some(text) ==> (rfc3339_exact(secs, nanos) ==> (rfc3339_instant(text@) matches Ok(p) && p == (secs, nanos))),
{
    match chrono::DateTime::from_timestamp(secs, nanos) {
        Some(dt) => Some(dt.to_rfc3339()),
        None => None,
    }
}

/// Reads an RFC 3339 text with `chrono::DateTime::parse_from_rfc3339`,
/// giving the instant's `timestamp` and `timestamp_subsec_nanos`, or the
/// text of chrono's `ParseError` (its `Display`) when chrono refuses the text.
/// Both are named, not stated.
#[verifier::external_body]
fn parse_rfc3339_parts(text: &str) -> (r: Result<(i64, u32), String>)
    ensures
        r matches Ok(p) ==> (rfc3339_instant(text@) matches Ok(q) && q == p),
        r matches Err(m) ==> (rfc3339_instant(text@) matches Err(e) && e == m@),
{
    match chrono::DateTime::parse_from_rfc3339(text) {
        Ok(dt) => Ok((dt.timestamp(), dt.timestamp_subsec_nanos())),
        Err(error) => Err(error.to_string()),
    }
}

/// What reading an RFC 3339 text gives: the instant chrono reads when it is in
/// range, chrono's message when chrono refuses the text, and chrono's message
/// for a value out of range when the instant lies beyond the library's range.
pub open spec fn timestamp_read(text: Seq<char>) -> Result<Timestamp, Seq<char>> {
    match rfc3339_instant(text) {
        Ok(p) => if (Timestamp { secs: p.0, nanos: p.1 }).wf() {
            Ok(Timestamp { secs: p.0, nanos: p.1 })
        } else {
            Err("input is out of range"@)
        },
        Err(m) => Err(m),
    }
}

impl Timestamp {
    /// The instant as RFC 3339 text, as chrono writes it; for an instant with a
    /// four-digit year, text that chrono reads back to the same instant.
    pub fn to_rfc3339(&self) -> (r: Option<String>)
        ensures
            opt_text(r) == rfc3339_text(self.secs, self.nanos),
            rfc3339_exact(self.secs, self.nanos) ==> (r matches Some(text) && rfc3339_instant(text@) matches Ok(
                p,
            ) && p == (self.secs, self.nanos)),
    {
        format_rfc3339(self.secs, self.nanos)
    }

    /// The instant an RFC 3339 text denotes, or why it is refused.
    pub fn parse_rfc3339(text: &str) -> (r: Result<Self, String>)
        ensures
            r matches Ok(t) ==> (timestamp_read(text@) matches Ok(u) && u == t),
            r matches Err(m) ==> (timestamp_read(text@) matches Err(e) && e == m@),
    {
        match parse_rfc3339_parts(text) {
            Ok((secs, nanos)) => match Timestamp::from_parts(secs, nanos) {
                Some(t) => Ok(t),
                None => Err("input is out of range".to_owned()),
            },
            Err(m) => Err(m),
        }
    }
}

/// The strftime pattern of a minute bucket's label, `YYYY-MM-DD HH:MM`.
pub open spec fn minute_pattern() -> Seq<char> {
    "%Y-%m-%d %H:%M"@
}

/// The current time in UTC written with `pattern` by
/// `chrono::Utc::now().format(pattern).to_string()`. `to_string` panics when
/// chrono cannot format the pattern, so only the minute pattern, which it
/// formats, is admitted. The text depends on the time, so nothing is stated of
/// it.
#[verifier::external_body]
pub(crate) fn current_time_label(pattern: &str) -> (r: String)
    requires
        pattern@ == minute_pattern(),
{
    chrono::Utc::now().format(pattern).to_string()
}

/// The second of the day (UTC) that an instant falls in.
pub open spec fn second_of_day(t: Timestamp) -> int {
    (t.secs as int) % 86_400
}

/// The correction for a leap second that lies between two instants on the
/// clock: when the later time of day is reached from inside a leap second
/// (nanoseconds of a second or more), that extra second still counts.
pub open spec fn leap_adjustment(start: Timestamp, end: Timestamp) -> int {
    if second_of_day(end) > second_of_day(start) && start.nanos >= 1_000_000_000 {
        1
    } else if second_of_day(end) < second_of_day(start) && end.nanos >= 1_000_000_000 {
        -1
    } else {
        0
    }
}

/// Nanoseconds from `start` to `end`, counting a leap second that one of them
/// sits in as chrono's `signed_duration_since` does.
pub open spec fn elapsed_nanos(start: Timestamp, end: Timestamp) -> int {
    (end.secs - start.secs + leap_adjustment(start, end)) * 1_000_000_000 + end.nanos - start.nanos
}

/// Seconds from `start` to `end`, truncated toward zero, and never below zero:
/// what `DateTime::signed_duration_since(..).num_seconds().max(0)` gives.
pub open spec fn elapsed_seconds(start: Timestamp, end: Timestamp) -> int {
    let diff = elapsed_nanos(start, end);
    if diff <= 0 {
        0
    } else {
        diff / 1_000_000_000
    }
}

/// A multiple of a day larger than any timestamp's seconds, so that adding it
/// makes them nonnegative without moving the time of day.
const DAY_SHIFT: i128 = 4_611_686_018_427_446_400;

/// The second of the day of a timestamp.
fn second_of_day_of(t: &Timestamp) -> (r: i128)
    requires
        t.wf(),
    ensures
        r == second_of_day(*t),
        0 <= r < 86_400,
{
    let shifted: i128 = t.secs as i128 + DAY_SHIFT;
    proof {
        vstd::arithmetic::div_mod::lemma_mod_multiples_vanish(53_375_995_583_651, t.secs as int, 86_400);
        assert(86_400 * 53_375_995_583_651 == 4_611_686_018_427_446_400int) by (nonlinear_arith);
        assert(86_400 * 53_375_995_583_651 + t.secs == shifted);
    }
    shifted % 86_400
}

/// Whole seconds elapsed from `start` to `end` as chrono counts them (with a
/// leap second that one of them sits in), or zero when `end` is not later.
pub fn elapsed_seconds_between(start: Timestamp, end: Timestamp) -> (r: i64)
    requires
        start.wf(),
        end.wf(),
    ensures
        r == elapsed_seconds(start, end),
{
    let ts = second_of_day_of(&start);
    let te = second_of_day_of(&end);
    let adj: i128 = if te > ts && start.nanos >= 1_000_000_000 {
        1
    } else if te < ts && end.nanos >= 1_000_000_000 {
        -1
    } else {
        0
    };
    let diff: i128 = (end.secs as i128 - start.secs as i128 + adj) * 1_000_000_000i128 + (
    end.nanos as i128 - start.nanos as i128);
    if diff <= 0 {
        0
    } else {
        assert(diff / 1_000_000_000 <= 9_223_372_036_854_775_807) by (nonlinear_arith)
            requires
                0 < diff <= 9_223_372_036_854_775_807 * 1_000_000_000 + 999_999_999,
        ;
        (diff / 1_000_000_000i128) as i64
    }
}

fn time_in_range(t: &Timestamp) -> (r: bool)
    ensures
        r == t.wf(),
{
    -TIMESTAMP_SECS_LIMIT <= t.secs && t.secs <= TIMESTAMP_SECS_LIMIT && t.nanos < 2_000_000_000
}

fn opt_time_in_range(t: &Option<Timestamp>) -> (r: bool)
    ensures
        r == opt_time_wf(*t),
{
    match t {
        Some(v) => time_in_range(v),
        None => true,
    }
}

/// What is stored of a session: identity, lifecycle and aggregate counts.
#[derive(Clone, Debug)]
pub struct SessionSnapshot {
    pub session_id: String,
    pub name: Option<String>,
    pub layout: KeyboardLayout,
    pub status: SessionStatus,
    pub started_at: Timestamp,
    pub stopped_at: Option<Timestamp>,
    pub last_updated_at: Timestamp,
    pub total_keypresses: u64,
    pub unique_keys: usize,
    pub dropped_events: u64,
    pub capture_error: Option<String>,
    pub report_path: Option<String>,
    pub last_flush_at: Option<Timestamp>,
    pub clean_shutdown: bool,
    pub key_counts: CountTable,
    pub minute_buckets: CountTable,
}

/// An optional timestamp is in range when present.
pub open spec fn opt_time_wf(t: Option<Timestamp>) -> bool {
    match t {
        Some(v) => v.wf(),
        None => true,
    }
}

impl SessionSnapshot {
    /// Tables sorted and timestamps in range.
    pub open spec fn wf(&self) -> bool {
        &&& self.key_counts.wf()
        &&& self.minute_buckets.wf()
        &&& self.started_at.wf()
        &&& opt_time_wf(self.stopped_at)
        &&& self.last_updated_at.wf()
        &&& opt_time_wf(self.last_flush_at)
    }

    /// Whether the snapshot is well formed.
    pub fn check_wf(&self) -> (r: bool)
        ensures
            r == self.wf(),
    {
        self.key_counts.check_wf() && self.minute_buckets.check_wf() && time_in_range(&self.started_at)
            && opt_time_in_range(&self.stopped_at) && time_in_range(&self.last_updated_at)
            && opt_time_in_range(&self.last_flush_at)
    }

    /// A fresh running session with no counts, started now.
    pub fn new(session_id: String, name: Option<String>, layout: KeyboardLayout) -> (r: Self)
        ensures
            r.wf(),
            r.session_id == session_id,
            r.name == name,
            r.layout == layout,
            r.status == SessionStatus::Running,
            r.stopped_at is None,
            r.last_updated_at == r.started_at,
            r.total_keypresses == 0,
            r.unique_keys == 0,
            r.dropped_events == 0,
            r.capture_error is None,
            r.report_path is None,
            r.last_flush_at is None,
            !r.clean_shutdown,
            r.key_counts@ == Map::<Seq<char>, u64>::empty(),
            r.key_counts.entries().len() == 0,
            r.minute_buckets.entries().len() == 0,
    {
        let now = Timestamp::now();
        let key_counts = CountTable::new();
        let minute_buckets = CountTable::new();
        assert(key_counts@ =~= Map::<Seq<char>, u64>::empty());
        SessionSnapshot {
            session_id,
            name,
            layout,
            status: SessionStatus::Running,
            started_at: now,
            stopped_at: None,
            last_updated_at: now,
            total_keypresses: 0,
            unique_keys: 0,
            dropped_events: 0,
            capture_error: None,
            report_path: None,
            last_flush_at: None,
            clean_shutdown: false,
            key_counts,
            minute_buckets,
        }
    }
}

/// The record of the background collector process that owns a running session.
#[derive(Clone, Debug)]
pub struct RuntimeInfo {
    pub session_id: String,
    pub pid: u32,
    pub control_port: Option<u16>,
    pub control_token: String,
    pub daemon_started_at: Timestamp,
    pub heartbeat_at: Option<Timestamp>,
    pub flush_seq: u64,
}

/// A stored session with its collector record, when one is attached.
#[derive(Clone, Debug)]
pub struct SessionRecord {
    pub snapshot: SessionSnapshot,
    pub runtime: Option<RuntimeInfo>,
}

/// The counts the collector hands to storage at a flush.
#[derive(Clone, Debug)]
pub struct CollectorFlush {
    pub total_keypresses: u64,
    pub unique_keys: usize,
    pub dropped_events: u64,
    pub last_updated_at: Timestamp,
    pub last_flush_at: Timestamp,
    pub capture_error: Option<String>,
    pub key_counts: CountTable,
    pub minute_buckets: CountTable,
}

impl CollectorFlush {
    pub open spec fn wf(&self) -> bool {
        &&& self.key_counts.wf()
        &&& self.minute_buckets.wf()
        &&& self.last_updated_at.wf()
        &&& self.last_flush_at.wf()
    }
}

/// The collector's live state: counts so far, keys held down, and whether
/// anything changed since the last flush.
pub struct CollectorState {
    pub session_id: String,
    pub total_keypresses: u64,
    pub dropped_events: u64,
    pub capture_error: Option<String>,
    pub key_counts: CountTable,
    pub minute_buckets: CountTable,
    pub pressed_keys: KeySet,
    pub dirty: bool,
    pub flush_seq: u64,
}

impl CollectorState {
    pub open spec fn wf(&self) -> bool {
        &&& self.key_counts.wf()
        &&& self.minute_buckets.wf()
        &&& self.pressed_keys.wf()
    }

    /// The state resumed from `snapshot`: its counts carried over, no key
    /// held, and dirty so that the first flush writes it back.
    pub open spec fn loaded_from(&self, snapshot: SessionSnapshot, flush_seq: u64) -> bool {
        &&& self.wf() == (snapshot.key_counts.wf() && snapshot.minute_buckets.wf())
        &&& self.session_id@ == snapshot.session_id@
        &&& self.total_keypresses == snapshot.total_keypresses
        &&& self.dropped_events == snapshot.dropped_events
        &&& self.capture_error == snapshot.capture_error
        &&& self.key_counts.entries() == snapshot.key_counts.entries()
        &&& self.minute_buckets.entries() == snapshot.minute_buckets.entries()
        &&& self.pressed_keys@ == Set::<Seq<char>>::empty()
        &&& self.dirty
        &&& self.flush_seq == flush_seq
    }

    /// Resumes counting from a stored snapshot.
    pub fn from_snapshot(snapshot: &SessionSnapshot, flush_seq: u64) -> (r: Self)
        ensures
            r.loaded_from(*snapshot, flush_seq),
    {
        CollectorState {
            session_id: snapshot.session_id.clone(),
            total_keypresses: snapshot.total_keypresses,
            dropped_events: snapshot.dropped_events,
            capture_error: snapshot.capture_error.clone(),
            key_counts: snapshot.key_counts.duplicate(),
            minute_buckets: snapshot.minute_buckets.duplicate(),
            pressed_keys: KeySet::new(),
            dirty: true,
            flush_seq,
        }
    }

    /// The counts as they stand, stamped with the current time.
    pub fn snapshot(&self) -> (r: CollectorFlush)
        ensures
            r.last_updated_at.wf(),
            r.last_flush_at == r.last_updated_at,
            self.flush_matches(r),
    {
        let now = Timestamp::now();
        CollectorFlush {
            total_keypresses: self.total_keypresses,
            unique_keys: self.key_counts.len(),
            dropped_events: self.dropped_events,
            last_updated_at: now,
            last_flush_at: now,
            capture_error: self.capture_error.clone(),
            key_counts: self.key_counts.duplicate(),
            minute_buckets: self.minute_buckets.duplicate(),
        }
    }

    /// A flush carries exactly the state's counts.
    pub open spec fn flush_matches(&self, f: CollectorFlush) -> bool {
        &&& f.total_keypresses == self.total_keypresses
        &&& f.unique_keys == self.key_counts.entries().len()
        &&& f.dropped_events == self.dropped_events
        &&& f.capture_error == self.capture_error
        &&& f.key_counts.entries() == self.key_counts.entries()
        &&& f.minute_buckets.entries() == self.minute_buckets.entries()
    }
}

/// One cell of an on-screen keyboard: the key it shows and its caption.
#[derive(Clone, Copy, Debug)]
pub struct KeyCell {
    pub id: &'static str,
    pub label: &'static str,
}

} // verus!
