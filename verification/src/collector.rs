//! The collector's rules: counting key presses, preparing flushes, and
//! answering requests on its control channel.
use crate::model::{current_time_label, CollectorFlush, CollectorState, SessionSnapshot};
use crate::table::sum_counts;
use crate::text::text_eq;
use vstd::prelude::*;

verus! {

/// What the collector's own process needs to know about its session.
#[derive(Clone, Debug)]
pub struct DaemonContext {
    pub session_id: String,
    pub control_token: String,
}

/// A keyboard event as the collector sees it: a key, named by its
/// identifier, going down or up; anything else is ignored.
#[derive(Clone, Debug)]
pub enum KeyEvent {
    Press(String),
    Release(String),
    Other,
}

impl CollectorState {
    /// The total agrees with the per-key counts and with the per-minute
    /// counts.
    pub open spec fn counts_agree(&self) -> bool {
        &&& self.total_keypresses == sum_counts(self.key_counts.entries())
        &&& self.total_keypresses == sum_counts(self.minute_buckets.entries())
    }

    /// Counting `event` in minute `bucket` overflows no counter: a press of
    /// a key not held needs room in the total, in the key's count and in the
    /// bucket's count.
    pub open spec fn room_for(&self, event: KeyEvent, bucket: Seq<char>) -> bool {
        match event {
            KeyEvent::Press(k) => !self.pressed_keys@.contains(k@) ==> {
                &&& self.total_keypresses < u64::MAX
                &&& self.key_counts.count_of(k@) < u64::MAX
                &&& self.minute_buckets.count_of(bucket) < u64::MAX
            },
            _ => true,
        }
    }

    /// Counting `event` in whatever minute it falls overflows no counter.
    pub open spec fn room_for_any_minute(&self, event: KeyEvent) -> bool {
        match event {
            KeyEvent::Press(k) => !self.pressed_keys@.contains(k@) ==> {
                &&& self.total_keypresses < u64::MAX
                &&& self.key_counts.count_of(k@) < u64::MAX
                &&& forall|i: int|
                    0 <= i < self.minute_buckets.entries().len()
                        ==> #[trigger] self.minute_buckets.entries()[i].1 < u64::MAX
            },
            _ => true,
        }
    }

    /// Fields that no key event touches.
    pub open spec fn same_identity(&self, other: &CollectorState) -> bool {
        &&& other.session_id == self.session_id
        &&& other.dropped_events == self.dropped_events
        &&& other.capture_error == self.capture_error
        &&& other.flush_seq == self.flush_seq
    }

    /// The effect of `event` on the state, with presses counted in the
    /// minute `bucket`: a key that goes down while not already held adds one
    /// to its count, to the bucket and to the total and marks the state
    /// dirty; a key that goes down while held (auto-repeat) changes nothing;
    /// a key that goes up is no longer held.
    pub open spec fn event_effect(&self, next: &CollectorState, event: KeyEvent, bucket: Seq<char>) -> bool {
        &&& self.same_identity(next)
        &&& match event {
            KeyEvent::Press(k) => if !self.pressed_keys@.contains(k@) {
                &&& next.pressed_keys@ == self.pressed_keys@.insert(k@)
                &&& next.key_counts@ == self.key_counts@.insert(
                    k@,
                    (self.key_counts.count_of(k@) + 1) as u64,
                )
                &&& next.minute_buckets@ == self.minute_buckets@.insert(
                    bucket,
                    (self.minute_buckets.count_of(bucket) + 1) as u64,
                )
                &&& next.total_keypresses == self.total_keypresses + 1
                &&& next.dirty
            } else {
                &&& next.pressed_keys@ == self.pressed_keys@
                &&& next.key_counts.entries() == self.key_counts.entries()
                &&& next.minute_buckets.entries() == self.minute_buckets.entries()
                &&& next.total_keypresses == self.total_keypresses
                &&& next.dirty == self.dirty
            },
            KeyEvent::Release(k) => {
                &&& next.pressed_keys@ == self.pressed_keys@.remove(k@)
                &&& next.key_counts.entries() == self.key_counts.entries()
                &&& next.minute_buckets.entries() == self.minute_buckets.entries()
                &&& next.total_keypresses == self.total_keypresses
                &&& next.dirty == self.dirty
            },
            KeyEvent::Other => {
                &&& next.pressed_keys@ == self.pressed_keys@
                &&& next.key_counts.entries() == self.key_counts.entries()
                &&& next.minute_buckets.entries() == self.minute_buckets.entries()
                &&& next.total_keypresses == self.total_keypresses
                &&& next.dirty == self.dirty
            },
        }
    }

    /// Whether `event` can be counted in whatever minute it falls.
    #[verifier::loop_isolation(false)]
    pub fn check_room(&self, event: &KeyEvent) -> (r: bool)
        requires
            self.wf(),
        ensures
            r == self.room_for_any_minute(*event),
    {
        match event {
            KeyEvent::Press(key) => {
                if self.pressed_keys.contains(key.as_str()) {
                    return true;
                }
                if self.total_keypresses == u64::MAX {
                    return false;
                }
                let current = self.key_counts.get(key.as_str());
                if current == Some(u64::MAX) {
                    assert(self.key_counts.count_of(key@) == u64::MAX);
                    return false;
                }
                assert(self.key_counts.count_of(key@) < u64::MAX);
                let m = self.minute_buckets.len();
                let mut j: usize = 0;
                while j < m
                    invariant
                        m == self.minute_buckets.entries().len(),
                        j <= m,
                        forall|x: int| 0 <= x < j ==> #[trigger] self.minute_buckets.entries()[x].1 < u64::MAX,
                    decreases m - j,
                {
                    if self.minute_buckets.count_at(j) == u64::MAX {
                        assert(self.minute_buckets.entries()[j as int].1 == u64::MAX);
                        return false;
                    }
                    j = j + 1;
                }
                true
            },
            _ => true,
        }
    }

    /// Records that the keyboard hook failed with `error`, so that the next
    /// flush stores it.
    pub fn note_capture_error(&mut self, error: String)
        ensures
            final(self).capture_error == Some(error),
            final(self).dirty,
            final(self).session_id == old(self).session_id,
            final(self).total_keypresses == old(self).total_keypresses,
            final(self).dropped_events == old(self).dropped_events,
            final(self).key_counts == old(self).key_counts,
            final(self).minute_buckets == old(self).minute_buckets,
            final(self).pressed_keys == old(self).pressed_keys,
            final(self).flush_seq == old(self).flush_seq,
    {
        self.capture_error = Some(error);
        self.dirty = true;
    }

    /// Prepares a flush unconditionally: the flush counter advances, the
    /// state is no longer dirty, and the session id, new counter and counts
    /// are handed back.
    pub fn begin_flush(&mut self) -> (r: (String, u64, CollectorFlush))
        requires
            old(self).flush_seq < u64::MAX,
        ensures
            final(self).flush_seq == old(self).flush_seq + 1,
            !final(self).dirty,
            final(self).session_id == old(self).session_id,
            final(self).total_keypresses == old(self).total_keypresses,
            final(self).dropped_events == old(self).dropped_events,
            final(self).capture_error == old(self).capture_error,
            final(self).key_counts == old(self).key_counts,
            final(self).minute_buckets == old(self).minute_buckets,
            final(self).pressed_keys == old(self).pressed_keys,
            r.0@ == old(self).session_id@,
            r.1 == final(self).flush_seq,
            r.2.last_updated_at.wf(),
            r.2.last_flush_at == r.2.last_updated_at,
            old(self).flush_matches(r.2),
    {
        self.flush_seq = self.flush_seq + 1;
        self.dirty = false;
        (self.session_id.clone(), self.flush_seq, self.snapshot())
    }

    /// Prepares a flush only when something changed since the last one;
    /// otherwise the state is left as it is.
    pub fn take_pending_flush(&mut self) -> (r: Option<(String, u64, CollectorFlush)>)
        requires
            old(self).dirty ==> old(self).flush_seq < u64::MAX,
        ensures
            r is Some == old(self).dirty,
            !old(self).dirty ==> *final(self) == *old(self),
            r matches Some(f) ==> {
                &&& final(self).flush_seq == old(self).flush_seq + 1
                &&& !final(self).dirty
                &&& final(self).session_id == old(self).session_id
                &&& final(self).total_keypresses == old(self).total_keypresses
                &&& final(self).dropped_events == old(self).dropped_events
                &&& final(self).capture_error == old(self).capture_error
                &&& final(self).key_counts == old(self).key_counts
                &&& final(self).minute_buckets == old(self).minute_buckets
                &&& final(self).pressed_keys == old(self).pressed_keys
                &&& f.0@ == old(self).session_id@
                &&& f.1 == final(self).flush_seq
                &&& f.2.last_updated_at.wf()
                &&& f.2.last_flush_at == f.2.last_updated_at
                &&& old(self).flush_matches(f.2)
            },
    {
        if !self.dirty {
            None
        } else {
            Some(self.begin_flush())
        }
    }
}

/// Applies one keyboard event, counting a press in `minute_bucket`.
pub fn record_event(state: &mut CollectorState, event: &KeyEvent, minute_bucket: &str)
    requires
        old(state).wf(),
        old(state).room_for(*event, minute_bucket@),
    ensures
        final(state).wf(),
        old(state).event_effect(&*final(state), *event, minute_bucket@),
        old(state).counts_agree() ==> final(state).counts_agree(),
{
    match event {
        KeyEvent::Press(key) => {
            if state.pressed_keys.insert(key.as_str()) {
                proof {
                    let ghost s = old(state).key_counts.entries();
                    if old(state).key_counts@.dom().contains(key@) {
                        let i = choose|i: int| 0 <= i < s.len() && #[trigger] s[i].0 == key@;
                        crate::table::lemma_table_map_at(s, i);
                    }
                    let ghost b = old(state).minute_buckets.entries();
                    if old(state).minute_buckets@.dom().contains(minute_bucket@) {
                        let i = choose|i: int| 0 <= i < b.len() && #[trigger] b[i].0 == minute_bucket@;
                        crate::table::lemma_table_map_at(b, i);
                    }
                }
                state.key_counts.increment(key.as_str());
                state.minute_buckets.increment(minute_bucket);
                state.total_keypresses = state.total_keypresses + 1;
                state.dirty = true;
            } else {
                assert(state.pressed_keys@ =~= old(state).pressed_keys@);
            }
        },
        KeyEvent::Release(key) => {
            state.pressed_keys.remove(key.as_str());
        },
        KeyEvent::Other => {},
    }
}

/// Applies one keyboard event as it happens, counting a press in the
/// current minute.
pub fn handle_event(state: &mut CollectorState, event: KeyEvent)
    requires
        old(state).wf(),
        old(state).room_for_any_minute(event),
    ensures
        final(state).wf(),
        exists|bucket: Seq<char>| old(state).event_effect(&*final(state), event, bucket),
        old(state).counts_agree() ==> final(state).counts_agree(),
{
    let bucket = match &event {
        KeyEvent::Press(_) => current_time_label("%Y-%m-%d %H:%M"),
        _ => String::new(),
    };
    proof {
        let b = state.minute_buckets.entries();
        if state.minute_buckets@.dom().contains(bucket@) {
            let i = choose|i: int| 0 <= i < b.len() && #[trigger] b[i].0 == bucket@;
            crate::table::lemma_table_map_at(b, i);
        }
    }
    record_event(state, &event, bucket.as_str());
}

/// The collector state for resuming a stored session.
pub fn load_collector_state(snapshot: &SessionSnapshot, flush_seq: u64) -> (r: CollectorState)
    ensures
        r.loaded_from(*snapshot, flush_seq),
{
    CollectorState::from_snapshot(snapshot, flush_seq)
}

/// A collector resumed from a fresh session starts with counts that agree.
pub proof fn lemma_fresh_session_counts_agree(snapshot: SessionSnapshot, state: CollectorState, flush_seq: u64)
    requires
        snapshot.total_keypresses == 0,
        snapshot.key_counts.entries().len() == 0,
        snapshot.minute_buckets.entries().len() == 0,
        state.loaded_from(snapshot, flush_seq),
    ensures
        state.counts_agree(),
{
    assert(sum_counts(state.key_counts.entries()) == 0);
    assert(sum_counts(state.minute_buckets.entries()) == 0);
}

/// A key held down is counted once: pressing it again before releasing it
/// changes no count.
pub proof fn lemma_held_key_not_recounted(
    before: CollectorState,
    after: CollectorState,
    key: String,
    bucket: Seq<char>,
)
    requires
        before.pressed_keys@.contains(key@),
        before.event_effect(&after, KeyEvent::Press(key), bucket),
    ensures
        after.total_keypresses == before.total_keypresses,
        after.key_counts.entries() == before.key_counts.entries(),
        after.minute_buckets.entries() == before.minute_buckets.entries(),
        after.pressed_keys@ == before.pressed_keys@,
{
}

/// After a press is counted the key is held, so its auto-repeat is not
/// counted; after its release the next press counts again.
pub proof fn lemma_press_release_press(
    s0: CollectorState,
    s1: CollectorState,
    s2: CollectorState,
    s3: CollectorState,
    key: String,
    b1: Seq<char>,
    b2: Seq<char>,
    b3: Seq<char>,
)
    requires
        !s0.pressed_keys@.contains(key@),
        s0.event_effect(&s1, KeyEvent::Press(key), b1),
        s1.event_effect(&s2, KeyEvent::Release(key), b2),
        s2.event_effect(&s3, KeyEvent::Press(key), b3),
        s0.key_counts.count_of(key@) + 2 <= u64::MAX,
    ensures
        s1.total_keypresses == s0.total_keypresses + 1,
        s3.total_keypresses == s0.total_keypresses + 2,
        s3.key_counts.count_of(key@) == s0.key_counts.count_of(key@) + 2,
{
    assert(s1.key_counts@.dom().contains(key@));
    assert(s1.key_counts.count_of(key@) == s0.key_counts.count_of(key@) + 1);
    assert(!s2.pressed_keys@.contains(key@));
    assert(s2.key_counts@ == s1.key_counts@);
    assert(s2.key_counts.count_of(key@) == s1.key_counts.count_of(key@));
    assert(s3.key_counts@.dom().contains(key@));
}

/// Only aggregates are kept: two different keys pressed in the same minute
/// leave the same counts whichever went down first.
pub proof fn lemma_press_order_not_kept(
    s0: CollectorState,
    s1: CollectorState,
    s2: CollectorState,
    t1: CollectorState,
    t2: CollectorState,
    a: String,
    c: String,
    bucket: Seq<char>,
)
    requires
        a@ != c@,
        !s0.pressed_keys@.contains(a@),
        !s0.pressed_keys@.contains(c@),
        s0.event_effect(&s1, KeyEvent::Press(a), bucket),
        s1.event_effect(&s2, KeyEvent::Press(c), bucket),
        s0.event_effect(&t1, KeyEvent::Press(c), bucket),
        t1.event_effect(&t2, KeyEvent::Press(a), bucket),
    ensures
        s2.total_keypresses == t2.total_keypresses,
        s2.key_counts@ == t2.key_counts@,
        s2.minute_buckets@ == t2.minute_buckets@,
        s2.pressed_keys@ == t2.pressed_keys@,
{
    assert(s1.key_counts.count_of(c@) == s0.key_counts.count_of(c@));
    assert(t1.key_counts.count_of(a@) == s0.key_counts.count_of(a@));
    assert(s1.minute_buckets@.dom().contains(bucket));
    assert(t1.minute_buckets@.dom().contains(bucket));
    assert(s2.key_counts@ =~= t2.key_counts@);
    assert(s2.minute_buckets@ =~= t2.minute_buckets@);
    assert(s2.pressed_keys@ =~= t2.pressed_keys@);
}

/// How the collector answers one control request.
#[derive(Clone, Copy, Debug)]
pub struct ControlDecision {
    /// Whether the request succeeds.
    pub ok: bool,
    /// The message sent back.
    pub message: &'static str,
    /// Whether the counts are flushed to storage before answering.
    pub flush: bool,
    /// Whether the session is marked cleanly stopped and the collector exits
    /// after answering.
    pub stop: bool,
}

impl ControlDecision {
    pub open spec fn answers(self, ok: bool, message: Seq<char>, flush: bool, stop: bool) -> bool {
        self.ok == ok && self.message@ == message && self.flush == flush && self.stop == stop
    }
}

/// The answer to a request carrying `token` and `command`, for a collector
/// whose token is `expected_token`: a wrong token is refused with no effect;
/// `status` reports that it runs; `flush` flushes; `stop` flushes, records a
/// clean stop and exits; any other command is refused.
pub fn decide_control(expected_token: &str, token: &str, command: &str) -> (r: ControlDecision)
    ensures
        token@ != expected_token@ ==> r.answers(false, "invalid token"@, false, false),
        token@ == expected_token@ ==> {
            if command@ == "status"@ {
                r.answers(true, "running"@, false, false)
            } else if command@ == "flush"@ {
                r.answers(true, "flushed"@, true, false)
            } else if command@ == "stop"@ {
                r.answers(true, "stopped"@, true, true)
            } else {
                r.answers(false, "unsupported command"@, false, false)
            }
        },
{
    if !text_eq(token, expected_token) {
        ControlDecision { ok: false, message: "invalid token", flush: false, stop: false }
    } else if text_eq(command, "status") {
        ControlDecision { ok: true, message: "running", flush: false, stop: false }
    } else if text_eq(command, "flush") {
        ControlDecision { ok: true, message: "flushed", flush: true, stop: false }
    } else if text_eq(command, "stop") {
        ControlDecision { ok: true, message: "stopped", flush: true, stop: true }
    } else {
        ControlDecision { ok: false, message: "unsupported command", flush: false, stop: false }
    }
}

/// What a client makes of the collector's reply: its message, as a success
/// or as the error.
pub fn control_reply_outcome(ok: bool, message: String) -> (r: Result<String, String>)
    ensures
        ok ==> r == Ok::<String, String>(message),
        !ok ==> r == Err::<String, String>(message),
{
    if ok {
        Ok(message)
    } else {
        Err(message)
    }
}

} // verus!
