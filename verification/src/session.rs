//! How stored sessions change over their life: a collector is attached,
//! counts are flushed, and the session ends stopped, interrupted or failed.
//! Also the choices made about sessions whose collector is gone.
use crate::model::{
    opt_text, opt_time_wf, CollectorFlush, CollectorState, RuntimeInfo, SessionRecord, SessionSnapshot,
    SessionStatus, Timestamp,
};
use crate::text::{signed_decimal, signed_decimal_text};
use vstd::prelude::*;

verus! {

/// Why a change to a stored session was refused.
#[derive(Clone, Copy, Debug, PartialEq, Eq, Structural)]
pub enum LifecycleError {
    /// A collector record is already attached to the session.
    RuntimeAlreadyAttached,
}

/// A copy of an optional string.
pub(crate) fn copy_opt_string(s: &Option<String>) -> (r: Option<String>)
    ensures
        r == *s,
{
    match s {
        Some(v) => Some(v.clone()),
        None => None,
    }
}

impl RuntimeInfo {
    pub open spec fn wf(&self) -> bool {
        self.daemon_started_at.wf() && opt_time_wf(self.heartbeat_at)
    }
}

/// The snapshot fields that describe the session itself and that no flush
/// or status change touches.
pub open spec fn same_identity(a: SessionSnapshot, b: SessionSnapshot) -> bool {
    &&& a.session_id == b.session_id
    &&& a.name == b.name
    &&& a.layout == b.layout
    &&& a.started_at == b.started_at
    &&& a.report_path == b.report_path
}

/// The snapshot fields that a status change leaves alone.
pub open spec fn same_counts(a: SessionSnapshot, b: SessionSnapshot) -> bool {
    &&& a.total_keypresses == b.total_keypresses
    &&& a.unique_keys == b.unique_keys
    &&& a.dropped_events == b.dropped_events
    &&& a.last_flush_at == b.last_flush_at
    &&& a.key_counts == b.key_counts
    &&& a.minute_buckets == b.minute_buckets
}

/// The stored session after flush number `flush_seq` of `flush` at `now`:
/// the counts, the error and both timestamps come from the flush, and an
/// attached collector record takes the heartbeat and flush number.
pub open spec fn flush_applied(
    before: SessionRecord,
    after: SessionRecord,
    flush_seq: u64,
    flush: CollectorFlush,
    now: Timestamp,
) -> bool {
    &&& same_identity(before.snapshot, after.snapshot)
    &&& after.snapshot.status == before.snapshot.status
    &&& after.snapshot.stopped_at == before.snapshot.stopped_at
    &&& after.snapshot.clean_shutdown == before.snapshot.clean_shutdown
    &&& after.snapshot.total_keypresses == flush.total_keypresses
    &&& after.snapshot.unique_keys == flush.unique_keys
    &&& after.snapshot.dropped_events == flush.dropped_events
    &&& after.snapshot.last_updated_at == flush.last_updated_at
    &&& after.snapshot.last_flush_at == Some(flush.last_flush_at)
    &&& after.snapshot.capture_error == flush.capture_error
    &&& after.snapshot.key_counts.entries() == flush.key_counts.entries()
    &&& after.snapshot.minute_buckets.entries() == flush.minute_buckets.entries()
    &&& match before.runtime {
        Some(rt) => after.runtime == Some(RuntimeInfo { heartbeat_at: Some(now), flush_seq, ..rt }),
        None => after.runtime is None,
    }
}

impl SessionRecord {
    pub open spec fn wf(&self) -> bool {
        &&& self.snapshot.wf()
        &&& match self.runtime {
            Some(rt) => rt.wf(),
            None => true,
        }
    }

    /// A newly stored session: the snapshot with no collector attached.
    pub fn created(snapshot: SessionSnapshot) -> (r: Self)
        ensures
            r.snapshot == snapshot,
            r.runtime is None,
    {
        SessionRecord { snapshot, runtime: None }
    }

    /// Attaches the record of the collector process `pid`, started at
    /// `daemon_started_at` and answering to `control_token`; it has no control
    /// port and no heartbeat yet, and has flushed nothing. Refused when a
    /// collector is already attached.
    pub fn attach_runtime(&mut self, pid: u32, control_token: &str, daemon_started_at: Timestamp) -> (r:
        Result<(), LifecycleError>)
        ensures
            old(self).runtime is Some <==> r == Err::<(), LifecycleError>(
                LifecycleError::RuntimeAlreadyAttached,
            ),
            r is Err ==> *final(self) == *old(self),
            r is Ok ==> final(self).snapshot == old(self).snapshot,
            r is Ok ==> (final(self).runtime matches Some(rt) && rt.session_id
                == old(self).snapshot.session_id && rt.pid == pid && rt.control_port is None
                && rt.control_token@ == control_token@ && rt.daemon_started_at == daemon_started_at
                && rt.heartbeat_at is None && rt.flush_seq == 0),
    {
        if self.runtime.is_some() {
            return Err(LifecycleError::RuntimeAlreadyAttached);
        }
        self.runtime = Some(
            RuntimeInfo {
                session_id: self.snapshot.session_id.clone(),
                pid,
                control_port: None,
                control_token: control_token.to_owned(),
                daemon_started_at,
                heartbeat_at: None,
                flush_seq: 0,
            },
        );
        Ok(())
    }

    /// Records the collector's control port, with a heartbeat at `now`. A
    /// session without a collector record is left as it is.
    pub fn set_runtime_port(&mut self, control_port: u16, now: Timestamp)
        ensures
            final(self).snapshot == old(self).snapshot,
            match old(self).runtime {
                Some(rt) => final(self).runtime == Some(
                    RuntimeInfo { control_port: Some(control_port), heartbeat_at: Some(now), ..rt },
                ),
                None => final(self).runtime is None,
            },
    {
        match &mut self.runtime {
            Some(rt) => {
                rt.control_port = Some(control_port);
                rt.heartbeat_at = Some(now);
            },
            None => {},
        }
    }

    /// Stores flush number `flush_seq` of `flush`, with a collector heartbeat
    /// at `now`.
    pub fn apply_flush(&mut self, flush_seq: u64, flush: &CollectorFlush, now: Timestamp)
        ensures
            flush_applied(*old(self), *final(self), flush_seq, *flush, now),
            old(self).wf() && flush.wf() && now.wf() ==> final(self).wf(),
    {
        self.snapshot.total_keypresses = flush.total_keypresses;
        self.snapshot.unique_keys = flush.unique_keys;
        self.snapshot.dropped_events = flush.dropped_events;
        self.snapshot.last_updated_at = flush.last_updated_at;
        self.snapshot.last_flush_at = Some(flush.last_flush_at);
        self.snapshot.capture_error = copy_opt_string(&flush.capture_error);
        self.snapshot.key_counts = flush.key_counts.duplicate();
        self.snapshot.minute_buckets = flush.minute_buckets.duplicate();
        match &mut self.runtime {
            Some(rt) => {
                rt.heartbeat_at = Some(now);
                rt.flush_seq = flush_seq;
            },
            None => {},
        }
    }

    /// Ends the session as stopped at `stopped_at`, clean or not, and drops
    /// its collector record.
    pub fn mark_stopped(&mut self, stopped_at: Timestamp, clean_shutdown: bool)
        ensures
            same_identity(old(self).snapshot, final(self).snapshot),
            same_counts(old(self).snapshot, final(self).snapshot),
            final(self).snapshot.capture_error == old(self).snapshot.capture_error,
            final(self).snapshot.status == SessionStatus::Stopped,
            final(self).snapshot.stopped_at == Some(stopped_at),
            final(self).snapshot.last_updated_at == stopped_at,
            final(self).snapshot.clean_shutdown == clean_shutdown,
            final(self).runtime is None,
            old(self).snapshot.wf() && stopped_at.wf() ==> final(self).wf(),
    {
        self.snapshot.status = SessionStatus::Stopped;
        self.snapshot.stopped_at = Some(stopped_at);
        self.snapshot.last_updated_at = stopped_at;
        self.snapshot.clean_shutdown = clean_shutdown;
        self.runtime = None;
    }

    /// Marks the session interrupted at `now`: not a clean shutdown, the
    /// collector record dropped, and the error replaced only when one is
    /// given.
    pub fn mark_interrupted(&mut self, now: Timestamp, capture_error: Option<&str>)
        ensures
            same_identity(old(self).snapshot, final(self).snapshot),
            same_counts(old(self).snapshot, final(self).snapshot),
            final(self).snapshot.status == SessionStatus::Interrupted,
            final(self).snapshot.stopped_at == old(self).snapshot.stopped_at,
            final(self).snapshot.last_updated_at == now,
            !final(self).snapshot.clean_shutdown,
            final(self).runtime is None,
            match capture_error {
                Some(e) => opt_text(final(self).snapshot.capture_error) == Some(e@),
                None => final(self).snapshot.capture_error == old(self).snapshot.capture_error,
            },
            old(self).snapshot.wf() && now.wf() ==> final(self).wf(),
    {
        self.snapshot.status = SessionStatus::Interrupted;
        self.snapshot.last_updated_at = now;
        match capture_error {
            Some(e) => {
                self.snapshot.capture_error = Some(e.to_owned());
            },
            None => {},
        }
        self.snapshot.clean_shutdown = false;
        self.runtime = None;
    }

    /// Marks the session failed at `now` with `capture_error`: not a clean
    /// shutdown, and the collector record dropped.
    pub fn mark_failed(&mut self, now: Timestamp, capture_error: &str)
        ensures
            same_identity(old(self).snapshot, final(self).snapshot),
            same_counts(old(self).snapshot, final(self).snapshot),
            final(self).snapshot.status == SessionStatus::Failed,
            final(self).snapshot.stopped_at == old(self).snapshot.stopped_at,
            final(self).snapshot.last_updated_at == now,
            opt_text(final(self).snapshot.capture_error) == Some(capture_error@),
            !final(self).snapshot.clean_shutdown,
            final(self).runtime is None,
            old(self).snapshot.wf() && now.wf() ==> final(self).wf(),
    {
        self.snapshot.status = SessionStatus::Failed;
        self.snapshot.last_updated_at = now;
        self.snapshot.capture_error = Some(capture_error.to_owned());
        self.snapshot.clean_shutdown = false;
        self.runtime = None;
    }
}

/// What the collector resumes with is what it last flushed: storing a flush
/// of a collector state and then loading a collector from the stored
/// session gives back its total, dropped count, error and both count
/// tables, and the stored number of distinct keys is the size of the key
/// table.
pub proof fn lemma_flush_round_trip(
    state: CollectorState,
    flush: CollectorFlush,
    before: SessionRecord,
    after: SessionRecord,
    flush_seq: u64,
    now: Timestamp,
)
    requires
        state.flush_matches(flush),
        flush_applied(before, after, flush_seq, flush, now),
    ensures
        after.snapshot.total_keypresses == state.total_keypresses,
        after.snapshot.dropped_events == state.dropped_events,
        after.snapshot.capture_error == state.capture_error,
        after.snapshot.key_counts.entries() == state.key_counts.entries(),
        after.snapshot.minute_buckets.entries() == state.minute_buckets.entries(),
        after.snapshot.unique_keys == after.snapshot.key_counts.entries().len(),
{
}

/// Whether a running session must be marked interrupted: its collector
/// record is missing or its process is gone.
pub fn needs_recovery(active: &SessionRecord, daemon_alive: bool) -> (r: bool)
    ensures
        r == (active.runtime is None || !daemon_alive),
{
    match &active.runtime {
        Some(_) => !daemon_alive,
        None => true,
    }
}

/// Whether a session was interrupted and never stopped, so that `stop` can
/// still close it.
pub open spec fn is_recoverable(r: SessionRecord) -> bool {
    r.snapshot.status == SessionStatus::Interrupted && r.snapshot.stopped_at is None
}

/// The first of `sessions` that was interrupted and never stopped.
pub fn recoverable_session(sessions: &Vec<SessionRecord>) -> (r: Option<usize>)
    ensures
        r matches Some(i) ==> i < sessions@.len() && is_recoverable(sessions@[i as int]) && forall|j: int|
            0 <= j < i ==> !is_recoverable(#[trigger] sessions@[j]),
        r is None ==> forall|j: int| 0 <= j < sessions@.len() ==> !is_recoverable(#[trigger] sessions@[j]),
{
    let n = sessions.len();
    let mut i: usize = 0;
    while i < n
        invariant
            n == sessions@.len(),
            i <= n,
            forall|j: int| 0 <= j < i ==> !is_recoverable(#[trigger] sessions@[j]),
        decreases n - i,
    {
        let s = &sessions[i];
        if s.snapshot.status == SessionStatus::Interrupted && s.snapshot.stopped_at.is_none() {
            return Some(i);
        }
        i = i + 1;
    }
    None
}

/// `i` is the first recoverable session of `sessions`.
pub open spec fn first_recoverable(sessions: Seq<SessionRecord>, i: int) -> bool {
    &&& 0 <= i < sessions.len()
    &&& is_recoverable(sessions[i])
    &&& forall|j: int| 0 <= j < i ==> !is_recoverable(#[trigger] sessions[j])
}

/// The session `stop` acts on.
#[derive(Clone, Debug)]
pub enum StopTarget {
    /// The running session: its collector is asked to stop.
    Running(SessionRecord),
    /// An interrupted session left open: it is closed without its collector.
    Recoverable(SessionRecord),
}

/// The session `stop` acts on: the active one, else the first recoverable
/// one of `sessions` (most recent first), else the message `stop` fails with.
pub fn stop_target(active: Option<SessionRecord>, sessions: Vec<SessionRecord>) -> (r: Result<
    StopTarget,
    String,
>)
    ensures
        active matches Some(a) ==> (r matches Ok(StopTarget::Running(x)) && x == a),
        active is None && (exists|i: int| first_recoverable(sessions@, i)) ==> (r matches Ok(
            StopTarget::Recoverable(x),
        ) && exists|i: int| first_recoverable(sessions@, i) && x == sessions@[i]),
        active is None && (forall|i: int| !first_recoverable(sessions@, i)) ==> (r matches Err(m)
            && m@ == "no active or recoverable session to stop"@),
{
    match active {
        Some(a) => Ok(StopTarget::Running(a)),
        None => {
            let mut sessions = sessions;
            match recoverable_session(&sessions) {
                Some(i) => {
                    proof {
                        assert(first_recoverable(sessions@, i as int));
                    }
                    let x = sessions.swap_remove(i);
                    Ok(StopTarget::Recoverable(x))
                },
                None => {
                    proof {
                        assert forall|i: int| !first_recoverable(sessions@, i) by {
                            if 0 <= i < sessions@.len() {
                                assert(!is_recoverable(sessions@[i]));
                            }
                        }
                    }
                    Err("no active or recoverable session to stop".to_owned())
                },
            }
        },
    }
}

/// What opening the store does about its schema version `current`, for a
/// program that knows version `supported`: a newer store is refused with the
/// message returned; an older or empty one (version zero) gets the supported
/// version recorded (`Ok(true)`); the same version is left alone (`Ok(false)`).
pub fn migration_step(current: i64, supported: i64) -> (r: Result<bool, String>)
    ensures
        current > supported ==> (r matches Err(m) && m@ == "database schema version "@ + signed_decimal(
            current as int,
        ) + " is newer than supported version "@ + signed_decimal(supported as int)),
        current <= supported ==> r == Ok::<bool, String>(current < supported),
{
    if current > supported {
        let mut m = "database schema version ".to_owned();
        let c = signed_decimal_text(current);
        m.append(c.as_str());
        m.append(" is newer than supported version ");
        let s = signed_decimal_text(supported);
        m.append(s.as_str());
        Err(m)
    } else {
        Ok(current < supported)
    }
}

/// What `stop` does after asking a collector to stop (`sent` is the outcome
/// of the request, `None` when the collector had no control port yet) and
/// checking whether its process still runs.
#[derive(Clone, Debug)]
pub enum StopOutcome {
    /// The collector stopped the session itself.
    Stopped,
    /// The collector is gone: record the session as interrupted with this
    /// reason, then as stopped without a clean shutdown.
    Recover(String),
    /// Give up with this message; the collector still runs.
    Fail(String),
}

/// The outcome of stopping a running session: a delivered request means the
/// collector stopped it; otherwise a dead collector's session is recovered,
/// and a live one is an error.
pub fn stop_outcome(sent: Option<Result<(), String>>, daemon_alive: bool) -> (r: StopOutcome)
    ensures
        match sent {
            Some(Ok(())) => r is Stopped,
            Some(Err(e)) => if daemon_alive {
                (r matches StopOutcome::Fail(m) && m@ == "graceful shutdown failed: "@ + e@)
            } else {
                (r matches StopOutcome::Recover(m) && m@ == "daemon exited during stop: "@ + e@)
            },
            None => if daemon_alive {
                (r matches StopOutcome::Fail(m) && m@
                    == "daemon control channel is not ready yet; retry stop in a moment"@)
            } else {
                (r matches StopOutcome::Recover(m) && m@ == "daemon exited unexpectedly"@)
            },
        },
{
    match sent {
        Some(Ok(())) => StopOutcome::Stopped,
        Some(Err(e)) => {
            if daemon_alive {
                let mut m = "graceful shutdown failed: ".to_owned();
                m.append(e.as_str());
                StopOutcome::Fail(m)
            } else {
                let mut m = "daemon exited during stop: ".to_owned();
                m.append(e.as_str());
                StopOutcome::Recover(m)
            }
        },
        None => {
            if daemon_alive {
                StopOutcome::Fail("daemon control channel is not ready yet; retry stop in a moment".to_owned())
            } else {
                StopOutcome::Recover("daemon exited unexpectedly".to_owned())
            }
        },
    }
}

/// The session that `live` follows: the active one when it is still
/// running; without one, the message the command fails with.
pub fn live_session_id(active: &Option<SessionRecord>) -> (r: Result<String, String>)
    ensures
        match active {
            Some(rec) => if rec.snapshot.status == SessionStatus::Running {
                (r matches Ok(id) && id@ == rec.snapshot.session_id@)
            } else {
                (r matches Err(m) && m@ == "no active session; start one with `start` before opening live mode"@)
            },
            None => (r matches Err(m) && m@
                == "no active session; start one with `start` before opening live mode"@),
        },
{
    match active {
        Some(rec) => {
            if rec.snapshot.status == SessionStatus::Running {
                Ok(rec.snapshot.session_id.clone())
            } else {
                Err("no active session; start one with `start` before opening live mode".to_owned())
            }
        },
        None => Err("no active session; start one with `start` before opening live mode".to_owned()),
    }
}

/// The integer stored for a flag.
pub fn bool_to_int(value: bool) -> (r: i64)
    ensures
        r == (if value { 1i64 } else { 0i64 }),
{
    if value {
        1
    } else {
        0
    }
}

/// The word printed for a flag.
pub fn yes_no(value: bool) -> (r: &'static str)
    ensures
        r@ == (if value { "yes"@ } else { "no"@ }),
{
    if value {
        "yes"
    } else {
        "no"
    }
}

} // verus!
