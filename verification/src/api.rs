//! The report of a session: its header, count summary, minute-by-minute
//! activity, key usage, keyboard heatmap and recent history. Shares and
//! intensities, which are ratios, are left to the presentation layer; this
//! module fixes every count they are computed from.
use crate::model::{
    elapsed_seconds, elapsed_seconds_between, opt_text, SessionRecord, SessionSnapshot, Timestamp,
};
use crate::report::{
    cell_view, keyboard_layout, pretty_key_name, pretty_name, sorted_key_usage, standard_cells,
    usage_before,
};
use crate::session::copy_opt_string;
use crate::table::{entry_view, CountTable};
use vstd::prelude::*;

verus! {

/// Who, what and when of the reported session.
#[derive(Clone, Debug)]
pub struct SessionHeaderDto {
    pub session_id: String,
    pub session_name: Option<String>,
    pub status: String,
    pub layout: String,
    pub started_at: Timestamp,
    pub stopped_at: Option<Timestamp>,
    pub duration_seconds: i64,
    pub clean_shutdown: bool,
    pub privacy_mode: &'static str,
}

/// The count summary of a session.
#[derive(Clone, Debug)]
pub struct SummaryCounts {
    pub total_keypresses: u64,
    pub unique_keys: usize,
    pub peak_minute: Option<u64>,
    pub peak_minute_bucket: Option<String>,
    pub dropped_events: u64,
}

/// Presses counted in one minute.
#[derive(Clone, Debug)]
pub struct ActivityPointDto {
    pub minute_bucket: String,
    pub keypresses: u64,
}

/// Presses of one key, with its friendly name.
#[derive(Clone, Debug)]
pub struct KeyUsageCount {
    pub key_id: String,
    pub display_label: String,
    pub count: u64,
}

/// One key of the on-screen keyboard with its press count.
#[derive(Clone, Debug)]
pub struct HeatmapCell {
    pub key_id: String,
    pub label: String,
    pub count: u64,
}

/// The on-screen keyboard of a session, and the largest count of any key.
#[derive(Clone, Debug)]
pub struct KeyboardCounts {
    pub layout: String,
    pub keys: Vec<HeatmapCell>,
    pub max_count: u64,
}

/// One earlier session in the history list.
#[derive(Clone, Debug)]
pub struct HistoryEntryDto {
    pub session_id: String,
    pub name: Option<String>,
    pub started_at: Timestamp,
    pub total_keypresses: u64,
    pub duration_seconds: i64,
    pub status: String,
}

/// Everything the report shows, in counts.
#[derive(Clone, Debug)]
pub struct ReportData {
    pub session: SessionHeaderDto,
    pub summary: SummaryCounts,
    pub activity: Vec<ActivityPointDto>,
    pub key_usage: Vec<KeyUsageCount>,
    pub keyboard: KeyboardCounts,
    pub history: Vec<HistoryEntryDto>,
}

/// How long a session ran: from its start to its stop, or to its last update
/// while it has not stopped; whole seconds, never negative.
pub open spec fn duration_of(s: SessionSnapshot) -> int {
    match s.stopped_at {
        Some(end) => elapsed_seconds(s.started_at, end),
        None => elapsed_seconds(s.started_at, s.last_updated_at),
    }
}

/// The duration of a session in whole seconds.
pub fn duration_seconds(snapshot: &SessionSnapshot) -> (r: i64)
    requires
        snapshot.wf(),
    ensures
        r == duration_of(*snapshot),
{
    let end = match snapshot.stopped_at {
        Some(t) => t,
        None => snapshot.last_updated_at,
    };
    elapsed_seconds_between(snapshot.started_at, end)
}

/// The history entry shows the session's id, name, start, total, duration
/// and status.
pub open spec fn history_matches(e: HistoryEntryDto, r: SessionRecord) -> bool {
    &&& e.session_id@ == r.snapshot.session_id@
    &&& opt_text(e.name) == opt_text(r.snapshot.name)
    &&& e.started_at == r.snapshot.started_at
    &&& e.total_keypresses == r.snapshot.total_keypresses
    &&& e.duration_seconds == duration_of(r.snapshot)
    &&& e.status@ == r.snapshot.status.name_of()
}

/// The history entry of a stored session.
pub fn history_from_record(record: &SessionRecord) -> (r: HistoryEntryDto)
    requires
        record.snapshot.wf(),
    ensures
        history_matches(r, *record),
        r.session_id@ == record.snapshot.session_id@,
        r.total_keypresses == record.snapshot.total_keypresses,
        r.started_at == record.snapshot.started_at,
        r.status@ == record.snapshot.status.name_of(),
{
    HistoryEntryDto {
        session_id: record.snapshot.session_id.clone(),
        name: copy_opt_string(&record.snapshot.name),
        started_at: record.snapshot.started_at,
        total_keypresses: record.snapshot.total_keypresses,
        duration_seconds: duration_seconds(&record.snapshot),
        status: record.snapshot.status.as_str().to_owned(),
    }
}

/// Every stored snapshot in a list is well formed.
pub open spec fn all_wf(records: Seq<SessionRecord>) -> bool {
    forall|i: int| 0 <= i < records.len() ==> (#[trigger] records[i]).snapshot.wf()
}

/// Whether every stored snapshot in a list is well formed.
pub fn check_all_wf(records: &Vec<SessionRecord>) -> (r: bool)
    ensures
        r == all_wf(records@),
{
    let n = records.len();
    let mut i: usize = 0;
    while i < n
        invariant
            n == records@.len(),
            i <= n,
            forall|j: int| 0 <= j < i ==> (#[trigger] records@[j]).snapshot.wf(),
        decreases n - i,
    {
        if !records[i].snapshot.check_wf() {
            return false;
        }
        i = i + 1;
    }
    true
}

/// The history entries of stored sessions, in the same order.
pub fn recent_history(records: &Vec<SessionRecord>) -> (r: Vec<HistoryEntryDto>)
    requires
        all_wf(records@),
    ensures
        r@.len() == records@.len(),
        forall|i: int| 0 <= i < r@.len() ==> history_matches(#[trigger] r@[i], records@[i]),
        forall|i: int|
            0 <= i < r@.len() ==> (#[trigger] r@[i]).total_keypresses == records@[i].snapshot.total_keypresses
                && r@[i].session_id@ == records@[i].snapshot.session_id@,
{
    let n = records.len();
    let mut out: Vec<HistoryEntryDto> = Vec::new();
    let mut i: usize = 0;
    while i < n
        invariant
            n == records@.len(),
            all_wf(records@),
            i <= n,
            out@.len() == i,
            forall|j: int| 0 <= j < i ==> history_matches(#[trigger] out@[j], records@[j]),
        decreases n - i,
    {
        out.push(history_from_record(&records[i]));
        i = i + 1;
    }
    out
}

/// The sessions of `s` other than `session_id`, in order.
pub open spec fn records_except(s: Seq<SessionRecord>, session_id: Seq<char>) -> Seq<SessionRecord>
    decreases s.len(),
{
    if s.len() == 0 {
        s
    } else if s.last().snapshot.session_id@ == session_id {
        records_except(s.drop_last(), session_id)
    } else {
        records_except(s.drop_last(), session_id).push(s.last())
    }
}

/// The history shown beside a session: the recent sessions other than it,
/// at most `limit` of them, in order.
pub fn history_excluding(records: &Vec<SessionRecord>, session_id: &str, limit: usize) -> (r: Vec<
    HistoryEntryDto,
>)
    requires
        all_wf(records@),
    ensures
        r@.len() == (if records_except(records@, session_id@).len() < limit {
            records_except(records@, session_id@).len() as int
        } else {
            limit as int
        }),
        forall|i: int|
            0 <= i < r@.len() ==> history_matches(
                #[trigger] r@[i],
                records_except(records@, session_id@)[i],
            ),
        forall|i: int|
            0 <= i < r@.len() ==> (#[trigger] r@[i]).total_keypresses == records_except(
                records@,
                session_id@,
            )[i].snapshot.total_keypresses && r@[i].session_id@ == records_except(
                records@,
                session_id@,
            )[i].snapshot.session_id@,
{
    let n = records.len();
    let mut out: Vec<HistoryEntryDto> = Vec::new();
    let mut i: usize = 0;
    while i < n
        invariant
            n == records@.len(),
            all_wf(records@),
            i <= n,
            out@.len() == (if records_except(records@.take(i as int), session_id@).len() < limit {
                records_except(records@.take(i as int), session_id@).len() as int
            } else {
                limit as int
            }),
            forall|j: int|
                0 <= j < out@.len() ==> history_matches(
                    #[trigger] out@[j],
                    records_except(records@.take(i as int), session_id@)[j],
                ),
        decreases n - i,
    {
        let ghost before = records_except(records@.take(i as int), session_id@);
        assert(records@.take(i + 1).drop_last() =~= records@.take(i as int));
        assert(records@.take(i + 1).last() == records@[i as int]);
        if !crate::text::text_eq(records[i].snapshot.session_id.as_str(), session_id) && out.len() < limit {
            out.push(history_from_record(&records[i]));
        }
        i = i + 1;
    }
    assert(records@.take(n as int) =~= records@);
    out
}

/// Presses per minute in minute order.
pub fn activity_points(buckets: &CountTable) -> (r: Vec<ActivityPointDto>)
    ensures
        r@.len() == buckets.entries().len(),
        forall|i: int|
            0 <= i < r@.len() ==> (#[trigger] r@[i]).minute_bucket@ == buckets.entries()[i].0
                && r@[i].keypresses == buckets.entries()[i].1,
{
    let n = buckets.len();
    let mut out: Vec<ActivityPointDto> = Vec::new();
    let mut i: usize = 0;
    while i < n
        invariant
            n == buckets.entries().len(),
            i <= n,
            out@.len() == i,
            forall|j: int|
                0 <= j < i ==> (#[trigger] out@[j]).minute_bucket@ == buckets.entries()[j].0
                    && out@[j].keypresses == buckets.entries()[j].1,
        decreases n - i,
    {
        out.push(ActivityPointDto { minute_bucket: buckets.key_at(i).clone(), keypresses: buckets.count_at(i) });
        i = i + 1;
    }
    out
}

/// Entry `i` has the largest count, and no later entry reaches it: the
/// busiest minute, the last one among equals.
pub open spec fn is_last_max(s: Seq<(Seq<char>, u64)>, i: int) -> bool {
    &&& 0 <= i < s.len()
    &&& forall|j: int| 0 <= j < s.len() ==> #[trigger] s[j].1 <= s[i].1
    &&& forall|j: int| i < j < s.len() ==> #[trigger] s[j].1 < s[i].1
}

/// The busiest minute and its count, the last one among equals; none when
/// nothing was counted.
pub fn peak_minute(buckets: &CountTable) -> (r: Option<(String, u64)>)
    ensures
        r is None <==> buckets.entries().len() == 0,
        r matches Some(p) ==> exists|i: int|
            #[trigger] is_last_max(buckets.entries(), i) && buckets.entries()[i] == entry_view(p),
{
    let n = buckets.len();
    if n == 0 {
        return None;
    }
    let ghost s = buckets.entries();
    let mut best: usize = 0;
    let mut j: usize = 1;
    while j < n
        invariant
            n == s.len(),
            s == buckets.entries(),
            1 <= j <= n,
            best < j,
            is_last_max(s.take(j as int), best as int),
        decreases n - j,
    {
        if buckets.count_at(j) >= buckets.count_at(best) {
            best = j;
        }
        assert(is_last_max(s.take(j + 1), best as int)) by {
            assert forall|x: int| 0 <= x < j + 1 implies #[trigger] s.take(j + 1)[x].1 <= s.take(
                j + 1,
            )[best as int].1 by {
                if x < j {
                    assert(s.take(j + 1)[x] == s.take(j as int)[x]);
                }
            }
        }
        j = j + 1;
    }
    assert(s.take(n as int) =~= s);
    Some((buckets.key_at(best).clone(), buckets.count_at(best)))
}

/// The largest count in a table, zero when it is empty.
pub open spec fn is_max_count(s: Seq<(Seq<char>, u64)>, m: u64) -> bool {
    &&& forall|j: int| 0 <= j < s.len() ==> #[trigger] s[j].1 <= m
    &&& (s.len() == 0 ==> m == 0)
    &&& (s.len() > 0 ==> exists|j: int| 0 <= j < s.len() && #[trigger] s[j].1 == m)
}

/// The largest count of any key.
pub fn max_count(counts: &CountTable) -> (r: u64)
    ensures
        is_max_count(counts.entries(), r),
{
    let n = counts.len();
    let mut m: u64 = 0;
    let mut i: usize = 0;
    while i < n
        invariant
            n == counts.entries().len(),
            i <= n,
            forall|j: int| 0 <= j < i ==> #[trigger] counts.entries()[j].1 <= m,
            i == 0 ==> m == 0,
            i > 0 ==> exists|j: int| 0 <= j < i && #[trigger] counts.entries()[j].1 == m,
        decreases n - i,
    {
        if counts.count_at(i) >= m {
            m = counts.count_at(i);
        }
        i = i + 1;
    }
    m
}

/// The on-screen keyboard with each key's count, zero for keys never
/// pressed.
pub fn build_keyboard_heatmap(snapshot: &SessionSnapshot) -> (r: KeyboardCounts)
    requires
        snapshot.key_counts.wf(),
    ensures
        r.layout@ == snapshot.layout.name_of(),
        is_max_count(snapshot.key_counts.entries(), r.max_count),
        r.keys@.len() == standard_cells().len(),
        forall|i: int|
            0 <= i < r.keys@.len() ==> (#[trigger] r.keys@[i]).key_id@ == standard_cells()[i].0
                && r.keys@[i].label@ == standard_cells()[i].1 && r.keys@[i].count
                == snapshot.key_counts.count_of(standard_cells()[i].0),
{
    let cells = keyboard_layout(snapshot.layout);
    let ghost cv = cells@.map_values(|c: crate::model::KeyCell| cell_view(c));
    let n = cells.len();
    let mut keys: Vec<HeatmapCell> = Vec::new();
    let mut i: usize = 0;
    while i < n
        invariant
            n == cells@.len(),
            cv == cells@.map_values(|c: crate::model::KeyCell| cell_view(c)),
            cv == standard_cells(),
            snapshot.key_counts.wf(),
            i <= n,
            keys@.len() == i,
            forall|j: int|
                0 <= j < i ==> (#[trigger] keys@[j]).key_id@ == standard_cells()[j].0 && keys@[j].label@
                    == standard_cells()[j].1 && keys@[j].count == snapshot.key_counts.count_of(
                    standard_cells()[j].0,
                ),
        decreases n - i,
    {
        let cell = cells[i];
        assert(cell_view(cell) == cv[i as int]);
        let count = match snapshot.key_counts.get(cell.id) {
            Some(c) => c,
            None => 0,
        };
        keys.push(HeatmapCell { key_id: cell.id.to_owned(), label: cell.label.to_owned(), count });
        i = i + 1;
    }
    KeyboardCounts {
        layout: snapshot.layout.as_str().to_owned(),
        keys,
        max_count: max_count(&snapshot.key_counts),
    }
}

/// A key-usage entry by its key and count.
pub open spec fn usage_view(e: KeyUsageCount) -> (Seq<char>, u64) {
    (e.key_id@, e.count)
}

/// The key-usage list of a session: every counted key once with its count
/// and friendly name, highest count first, ties in key order.
pub fn build_key_usage(snapshot: &SessionSnapshot) -> (r: Vec<KeyUsageCount>)
    requires
        snapshot.key_counts.wf(),
    ensures
        r@.len() == snapshot.key_counts.entries().len(),
        forall|i: int, j: int|
            0 <= i < j < r@.len() ==> usage_before(
                ((#[trigger] r@[i]).key_id@, r@[i].count),
                ((#[trigger] r@[j]).key_id@, r@[j].count),
            ),
        forall|i: int|
            0 <= i < r@.len() ==> snapshot.key_counts.entries().contains(
                ((#[trigger] r@[i]).key_id@, r@[i].count),
            ),
        forall|j: int|
            0 <= j < snapshot.key_counts.entries().len() ==> r@.map_values(|e: KeyUsageCount| usage_view(e)).contains(
                #[trigger] snapshot.key_counts.entries()[j],
            ),
        forall|i: int| 0 <= i < r@.len() ==> (#[trigger] r@[i]).display_label@ == pretty_name(r@[i].key_id@),
{
    let sorted = sorted_key_usage(&snapshot.key_counts);
    let ghost sv = sorted@.map_values(|e: (String, u64)| entry_view(e));
    let n = sorted.len();
    let mut out: Vec<KeyUsageCount> = Vec::new();
    let mut i: usize = 0;
    while i < n
        invariant
            n == sorted@.len(),
            i <= n,
            out@.len() == i,
            forall|j: int|
                0 <= j < i ==> (#[trigger] out@[j]).key_id@ == sorted@[j].0@ && out@[j].count
                    == sorted@[j].1 && out@[j].display_label@ == pretty_name(out@[j].key_id@),
        decreases n - i,
    {
        let key = sorted[i].0.clone();
        let count = sorted[i].1;
        let label = pretty_key_name(key.as_str());
        out.push(KeyUsageCount { key_id: key, display_label: label, count });
        i = i + 1;
    }
    proof {
        assert forall|i: int, j: int| 0 <= i < j < out@.len() implies usage_before(
            ((#[trigger] out@[i]).key_id@, out@[i].count),
            ((#[trigger] out@[j]).key_id@, out@[j].count),
        ) by {
            assert(usage_before(entry_view(sorted@[i]), entry_view(sorted@[j])));
        }
        assert forall|i: int| 0 <= i < out@.len() implies snapshot.key_counts.entries().contains(
            ((#[trigger] out@[i]).key_id@, out@[i].count),
        ) by {
            assert(snapshot.key_counts.entries().contains(entry_view(sorted@[i])));
        }
        let ghost ov = out@.map_values(|e: KeyUsageCount| usage_view(e));
        assert forall|j: int| 0 <= j < snapshot.key_counts.entries().len() implies ov.contains(
            #[trigger] snapshot.key_counts.entries()[j],
        ) by {
            assert(sv.contains(snapshot.key_counts.entries()[j]));
            let k = choose|k: int| 0 <= k < sv.len() && sv[k] == snapshot.key_counts.entries()[j];
            assert(ov[k] == sv[k]);
        }
    }
    out
}

/// The header of a session's report.
pub fn build_header(snapshot: &SessionSnapshot) -> (r: SessionHeaderDto)
    requires
        snapshot.wf(),
    ensures
        r.session_id@ == snapshot.session_id@,
        opt_text(r.session_name) == opt_text(snapshot.name),
        r.status@ == snapshot.status.name_of(),
        r.layout@ == snapshot.layout.name_of(),
        r.started_at == snapshot.started_at,
        r.stopped_at == snapshot.stopped_at,
        r.duration_seconds == duration_of(*snapshot),
        r.clean_shutdown == snapshot.clean_shutdown,
        r.privacy_mode@ == "aggregate-only"@,
{
    SessionHeaderDto {
        session_id: snapshot.session_id.clone(),
        session_name: copy_opt_string(&snapshot.name),
        status: snapshot.status.as_str().to_owned(),
        layout: snapshot.layout.as_str().to_owned(),
        started_at: snapshot.started_at,
        stopped_at: snapshot.stopped_at,
        duration_seconds: duration_seconds(snapshot),
        clean_shutdown: snapshot.clean_shutdown,
        privacy_mode: "aggregate-only",
    }
}

/// The report of `snapshot`, with the history drawn from `recent` (the
/// most recent stored sessions): the header, the stored totals, the busiest
/// minute, the activity in minute order, the key usage, the keyboard and the
/// recent sessions other than this one, at most `history_limit` of them.
pub fn build_report(snapshot: &SessionSnapshot, recent: &Vec<SessionRecord>, history_limit: usize) -> (r:
    ReportData)
    requires
        snapshot.wf(),
        all_wf(recent@),
    ensures
        r.session.session_id@ == snapshot.session_id@,
        opt_text(r.session.session_name) == opt_text(snapshot.name),
        r.session.status@ == snapshot.status.name_of(),
        r.session.layout@ == snapshot.layout.name_of(),
        r.session.started_at == snapshot.started_at,
        r.session.stopped_at == snapshot.stopped_at,
        r.session.duration_seconds == duration_of(*snapshot),
        r.session.clean_shutdown == snapshot.clean_shutdown,
        r.session.privacy_mode@ == "aggregate-only"@,
        r.summary.total_keypresses == snapshot.total_keypresses,
        r.summary.unique_keys == snapshot.unique_keys,
        r.summary.dropped_events == snapshot.dropped_events,
        r.summary.peak_minute is None <==> snapshot.minute_buckets.entries().len() == 0,
        r.summary.peak_minute_bucket is None <==> snapshot.minute_buckets.entries().len() == 0,
        r.summary.peak_minute matches Some(c) ==> exists|i: int|
            #[trigger] is_last_max(snapshot.minute_buckets.entries(), i)
                && snapshot.minute_buckets.entries()[i].1 == c
                && opt_text(r.summary.peak_minute_bucket) == Some(snapshot.minute_buckets.entries()[i].0),
        r.activity@.len() == snapshot.minute_buckets.entries().len(),
        forall|i: int|
            0 <= i < r.activity@.len() ==> (#[trigger] r.activity@[i]).minute_bucket@
                == snapshot.minute_buckets.entries()[i].0 && r.activity@[i].keypresses
                == snapshot.minute_buckets.entries()[i].1,
        r.key_usage@.len() == snapshot.key_counts.entries().len(),
        forall|i: int, j: int|
            0 <= i < j < r.key_usage@.len() ==> usage_before(
                ((#[trigger] r.key_usage@[i]).key_id@, r.key_usage@[i].count),
                ((#[trigger] r.key_usage@[j]).key_id@, r.key_usage@[j].count),
            ),
        forall|i: int|
            0 <= i < r.key_usage@.len() ==> snapshot.key_counts.entries().contains(
                ((#[trigger] r.key_usage@[i]).key_id@, r.key_usage@[i].count),
            ),
        forall|j: int|
            0 <= j < snapshot.key_counts.entries().len() ==> r.key_usage@.map_values(
                |e: KeyUsageCount| usage_view(e),
            ).contains(#[trigger] snapshot.key_counts.entries()[j]),
        forall|i: int|
            0 <= i < r.key_usage@.len() ==> (#[trigger] r.key_usage@[i]).display_label@ == pretty_name(
                r.key_usage@[i].key_id@,
            ),
        r.keyboard.layout@ == snapshot.layout.name_of(),
        is_max_count(snapshot.key_counts.entries(), r.keyboard.max_count),
        r.keyboard.keys@.len() == standard_cells().len(),
        forall|i: int|
            0 <= i < r.keyboard.keys@.len() ==> (#[trigger] r.keyboard.keys@[i]).key_id@
                == standard_cells()[i].0 && r.keyboard.keys@[i].label@ == standard_cells()[i].1
                && r.keyboard.keys@[i].count == snapshot.key_counts.count_of(standard_cells()[i].0),
        r.history@.len() == (if records_except(recent@, snapshot.session_id@).len() < history_limit {
            records_except(recent@, snapshot.session_id@).len() as int
        } else {
            history_limit as int
        }),
        forall|i: int|
            0 <= i < r.history@.len() ==> history_matches(
                #[trigger] r.history@[i],
                records_except(recent@, snapshot.session_id@)[i],
            ),
        forall|i: int|
            0 <= i < r.history@.len() ==> (#[trigger] r.history@[i]).total_keypresses == records_except(
                recent@,
                snapshot.session_id@,
            )[i].snapshot.total_keypresses && r.history@[i].session_id@ == records_except(
                recent@,
                snapshot.session_id@,
            )[i].snapshot.session_id@,
{
    let history = history_excluding(recent, snapshot.session_id.as_str(), history_limit);
    let key_usage = build_key_usage(snapshot);
    let activity = activity_points(&snapshot.minute_buckets);
    let peak = peak_minute(&snapshot.minute_buckets);
    let keyboard = build_keyboard_heatmap(snapshot);
    let session = build_header(snapshot);
    let (peak_minute, peak_minute_bucket) = match peak {
        Some((bucket, count)) => (Some(count), Some(bucket)),
        None => (None, None),
    };
    ReportData {
        session,
        summary: SummaryCounts {
            total_keypresses: snapshot.total_keypresses,
            unique_keys: snapshot.unique_keys,
            peak_minute,
            peak_minute_bucket,
            dropped_events: snapshot.dropped_events,
        },
        activity,
        key_usage,
        keyboard,
        history,
    }
}

} // verus!
