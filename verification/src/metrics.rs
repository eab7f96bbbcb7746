//! The behaviour metrics of a session, defined over its recorded events and
//! answers, and the laws that tie them together.

use crate::config::DetectionConfig;
use crate::models::{BehaviorEvent, EventType, QuestionAnswer};
use crate::patterns::{
    frequent_copies, frequent_copy_count, lemma_rapid_runs_bounds, lemma_switch_window_bounds,
    rapid_succession, switch_frequency, switch_stats,
};
use crate::text::contains_text;
use crate::time::{millis_between, Timestamp};
use vstd::prelude::*;
use vstd::utf8::encode_utf8;

verus! {

// ---------------------------------------------------------------------------
// Metrics of a session's events.
// ---------------------------------------------------------------------------

/// Counts and measures that the suspicion rules read.
#[derive(Debug, Clone, Copy, PartialEq, Eq, Structural)]
pub struct BehaviorMetrics {
    pub total_events: usize,
    pub visibility_changes: usize,
    pub tab_switches: usize,
    pub window_blurs: usize,
    pub copy_events: usize,
    pub paste_events: usize,
    pub total_away_duration_ms: i64,
    pub max_away_duration_ms: i64,
    pub away_count: usize,
    pub frequent_switches_1min: usize,
    pub frequent_switches_5min: usize,
    pub max_switches_per_minute: usize,
    pub total_copy_characters: usize,
    pub max_single_copy_characters: usize,
    pub frequent_copy_1min: usize,
    pub total_paste_characters: usize,
    /// UTF-8 bytes of all answers given in the session.
    pub total_answer_characters: usize,
    pub rapid_succession_events: usize,
    pub suspicious_content_matches: usize,
}

/// Length of the UTF-8 encoding of `s`, in bytes.
pub open spec fn utf8_len(s: Seq<char>) -> nat {
    encode_utf8(s).len()
}

/// How many events satisfy `p`.
pub open spec fn count_where(events: Seq<BehaviorEvent>, p: spec_fn(BehaviorEvent) -> bool) -> nat
    decreases events.len(),
{
    if events.len() == 0 {
        0
    } else {
        count_where(events.drop_last(), p) + if p(events.last()) { 1nat } else { 0nat }
    }
}

/// The sum of `f` over the events.
pub open spec fn sum_over(events: Seq<BehaviorEvent>, f: spec_fn(BehaviorEvent) -> nat) -> nat
    decreases events.len(),
{
    if events.len() == 0 {
        0
    } else {
        sum_over(events.drop_last(), f) + f(events.last())
    }
}

/// The largest value of `f` over the events, or 0 when there are none.
pub open spec fn max_over(events: Seq<BehaviorEvent>, f: spec_fn(BehaviorEvent) -> nat) -> nat
    decreases events.len(),
{
    if events.len() == 0 {
        0
    } else {
        let prev = max_over(events.drop_last(), f);
        if f(events.last()) > prev {
            f(events.last())
        } else {
            prev
        }
    }
}

/// Events of type `t`.
pub open spec fn of_type(t: EventType) -> spec_fn(BehaviorEvent) -> bool {
    |e: BehaviorEvent| e.event_type == t
}

/// The event reports the page state `state`.
pub open spec fn has_state(e: BehaviorEvent, state: Seq<char>) -> bool {
    e.visibility_state matches Some(s) && s@ == state
}

/// The event leaves or re-enters the exam page: a visibility change to
/// `hidden` or `visible`, a tab switch, or a window blur.
pub open spec fn is_switch(e: BehaviorEvent) -> bool {
    match e.event_type {
        EventType::VisibilityChange => has_state(e, "hidden"@) || has_state(e, "visible"@),
        EventType::TabSwitch => true,
        EventType::WindowBlur => true,
        _ => false,
    }
}

/// UTF-8 bytes of the event's details, 0 without details.
pub open spec fn detail_len(e: BehaviorEvent) -> nat {
    match e.details {
        Some(d) => utf8_len(d@),
        None => 0,
    }
}

/// UTF-8 bytes copied by a copy event; 0 for other events.
pub open spec fn copied_len() -> spec_fn(BehaviorEvent) -> nat {
    |e: BehaviorEvent|
        if e.event_type == EventType::Copy {
            detail_len(e)
        } else {
            0
        }
}

/// UTF-8 bytes pasted by a paste event; 0 for other events.
pub open spec fn pasted_len() -> spec_fn(BehaviorEvent) -> nat {
    |e: BehaviorEvent|
        if e.event_type == EventType::Paste {
            detail_len(e)
        } else {
            0
        }
}

/// Some keyword occurs in `text`.
pub open spec fn mentions_any(text: Seq<char>, keywords: Seq<String>) -> bool {
    exists|k: int| 0 <= k < keywords.len() && contains_text(text, #[trigger] keywords[k]@)
}

/// A copy or paste event whose details mention a keyword.
pub open spec fn keyword_hit(keywords: Seq<String>) -> spec_fn(BehaviorEvent) -> bool {
    |e: BehaviorEvent|
        {
            &&& (e.event_type == EventType::Copy || e.event_type == EventType::Paste)
            &&& (e.details matches Some(d) && mentions_any(d@, keywords))
        }
}

/// Instants of the events that satisfy `p`, in order.
pub open spec fn instants_where(
    events: Seq<BehaviorEvent>,
    p: spec_fn(BehaviorEvent) -> bool,
) -> Seq<Timestamp>
    decreases events.len(),
{
    if events.len() == 0 {
        seq![]
    } else {
        let prev = instants_where(events.drop_last(), p);
        if p(events.last()) {
            prev.push(events.last().event_time)
        } else {
            prev
        }
    }
}

/// Instants at which the page was left or re-entered.
pub open spec fn switch_instants(events: Seq<BehaviorEvent>) -> Seq<Timestamp> {
    instants_where(events, |e: BehaviorEvent| is_switch(e))
}

/// Instants of all events.
pub open spec fn all_instants(events: Seq<BehaviorEvent>) -> Seq<Timestamp> {
    instants_where(events, |e: BehaviorEvent| true)
}

/// Each copy event's instant and copied bytes, in order.
pub open spec fn copy_log(events: Seq<BehaviorEvent>) -> Seq<(Timestamp, usize)>
    decreases events.len(),
{
    if events.len() == 0 {
        seq![]
    } else {
        let prev = copy_log(events.drop_last());
        let e = events.last();
        if e.event_type == EventType::Copy {
            prev.push((e.event_time, detail_len(e) as usize))
        } else {
            prev
        }
    }
}

/// An away interval ends at `end`, if one is open: its length in whole
/// milliseconds, never below zero, joins the list and no interval is open
/// afterwards.
pub open spec fn close_away(pending: Option<Timestamp>, durations: Seq<int>, end: Timestamp) -> (
    Option<Timestamp>,
    Seq<int>,
) {
    match pending {
        Some(start) => {
            let d = millis_between(end, start);
            (None, durations.push(if d > 0 { d } else { 0 }))
        },
        None => (None, durations),
    }
}

/// Away tracking after the events: the start of the away interval still
/// open, and the lengths of the intervals closed so far. Hiding the page or
/// blurring the window opens an interval (restarting an open one); showing
/// the page or focusing the window or page closes it.
pub open spec fn away_tracking(events: Seq<BehaviorEvent>) -> (Option<Timestamp>, Seq<int>)
    decreases events.len(),
{
    if events.len() == 0 {
        (None, seq![])
    } else {
        let prev = away_tracking(events.drop_last());
        let e = events.last();
        match e.event_type {
            EventType::VisibilityChange => if has_state(e, "hidden"@) {
                (Some(e.event_time), prev.1)
            } else if has_state(e, "visible"@) {
                close_away(prev.0, prev.1, e.event_time)
            } else {
                prev
            },
            EventType::WindowBlur => (Some(e.event_time), prev.1),
            EventType::WindowFocus => close_away(prev.0, prev.1, e.event_time),
            EventType::PageFocus => close_away(prev.0, prev.1, e.event_time),
            _ => prev,
        }
    }
}

/// Lengths in milliseconds of the closed away intervals.
pub open spec fn away_durations(events: Seq<BehaviorEvent>) -> Seq<int> {
    away_tracking(events).1
}

/// Sum of a sequence of integers.
pub open spec fn int_sum(s: Seq<int>) -> int
    decreases s.len(),
{
    if s.len() == 0 {
        0
    } else {
        int_sum(s.drop_last()) + s.last()
    }
}

/// Largest element of a sequence, or 0 when it is empty or all below 0.
pub open spec fn int_max_or_zero(s: Seq<int>) -> int
    decreases s.len(),
{
    if s.len() == 0 {
        0
    } else {
        let prev = int_max_or_zero(s.drop_last());
        if s.last() > prev {
            s.last()
        } else {
            prev
        }
    }
}

/// UTF-8 bytes of all the answers given.
pub open spec fn answer_bytes(answers: Seq<QuestionAnswer>) -> nat
    decreases answers.len(),
{
    if answers.len() == 0 {
        0
    } else {
        answer_bytes(answers.drop_last()) + match answers.last().answer {
            Some(a) => utf8_len(a@),
            None => 0,
        }
    }
}

/// `m` holds the metrics of a session with these events (in the order they
/// were recorded) and answers.
pub open spec fn metrics_of(
    m: BehaviorMetrics,
    events: Seq<BehaviorEvent>,
    answers: Seq<QuestionAnswer>,
    config: DetectionConfig,
) -> bool {
    let away = away_durations(events);
    let switches = switch_frequency(switch_instants(events));
    &&& m.total_events == events.len()
    &&& m.visibility_changes == count_where(events, of_type(EventType::VisibilityChange))
    &&& m.tab_switches == count_where(events, of_type(EventType::TabSwitch))
    &&& m.window_blurs == count_where(events, of_type(EventType::WindowBlur))
    &&& m.copy_events == count_where(events, of_type(EventType::Copy))
    &&& m.paste_events == count_where(events, of_type(EventType::Paste))
    &&& m.total_away_duration_ms == int_sum(away)
    &&& m.max_away_duration_ms == int_max_or_zero(away)
    &&& m.away_count == away.len()
    &&& m.frequent_switches_1min == switches.0
    &&& m.frequent_switches_5min == switches.1
    &&& m.max_switches_per_minute == switches.2
    &&& m.total_copy_characters == sum_over(events, copied_len())
    &&& m.max_single_copy_characters == max_over(events, copied_len())
    &&& m.frequent_copy_1min == frequent_copies(copy_log(events))
    &&& m.total_paste_characters == sum_over(events, pasted_len())
    &&& m.total_answer_characters == answer_bytes(answers)
    &&& m.rapid_succession_events == rapid_succession(
        all_instants(events),
        config.rapid_succession_interval_ms as int,
    )
    &&& m.suspicious_content_matches == count_where(events, keyword_hit(config.suspicious_keywords@))
}

/// The sums that the metrics accumulate fit their machine integers.
pub open spec fn metrics_fit(events: Seq<BehaviorEvent>, answers: Seq<QuestionAnswer>) -> bool {
    &&& sum_over(events, copied_len()) <= usize::MAX
    &&& sum_over(events, pasted_len()) <= usize::MAX
    &&& answer_bytes(answers) <= usize::MAX
    &&& int_sum(away_durations(events)) <= i64::MAX
}

// --- lemmas on the folds -------------------------------------------------

pub(crate) proof fn lemma_count_where_bound(events: Seq<BehaviorEvent>, p: spec_fn(BehaviorEvent) -> bool)
    ensures
        count_where(events, p) <= events.len(),
    decreases events.len(),
{
    if events.len() > 0 {
        lemma_count_where_bound(events.drop_last(), p);
    }
}

pub(crate) proof fn lemma_sum_over_prefix(
    events: Seq<BehaviorEvent>,
    f: spec_fn(BehaviorEvent) -> nat,
    i: int,
)
    requires
        0 <= i <= events.len(),
    ensures
        sum_over(events.take(i), f) <= sum_over(events, f),
    decreases events.len() - i,
{
    if i < events.len() {
        lemma_sum_over_prefix(events, f, i + 1);
        assert(events.take(i + 1).drop_last() =~= events.take(i));
    } else {
        assert(events.take(i) =~= events);
    }
}

pub(crate) proof fn lemma_max_over_bound(events: Seq<BehaviorEvent>, f: spec_fn(BehaviorEvent) -> nat)
    ensures
        max_over(events, f) <= sum_over(events, f),
    decreases events.len(),
{
    if events.len() > 0 {
        lemma_max_over_bound(events.drop_last(), f);
    }
}

pub(crate) proof fn lemma_answer_bytes_prefix(answers: Seq<QuestionAnswer>, i: int)
    requires
        0 <= i <= answers.len(),
    ensures
        answer_bytes(answers.take(i)) <= answer_bytes(answers),
    decreases answers.len() - i,
{
    if i < answers.len() {
        lemma_answer_bytes_prefix(answers, i + 1);
        assert(answers.take(i + 1).drop_last() =~= answers.take(i));
    } else {
        assert(answers.take(i) =~= answers);
    }
}

/// One event either leaves the closed away intervals as they are or closes
/// one more, of non-negative length.
pub(crate) proof fn lemma_away_step(events: Seq<BehaviorEvent>)
    requires
        events.len() > 0,
    ensures
        ({
            let prev = away_durations(events.drop_last());
            let cur = away_durations(events);
            ||| cur == prev
            ||| (cur.len() == prev.len() + 1 && cur.drop_last() == prev && cur.last() >= 0)
        }),
{
    let prev = away_tracking(events.drop_last());
    let e = events.last();
    let closed = close_away(prev.0, prev.1, e.event_time);
    if closed.1 != prev.1 {
        assert(closed.1.drop_last() =~= prev.1);
    }
}

pub(crate) proof fn lemma_away_durations_nonnegative(events: Seq<BehaviorEvent>)
    ensures
        forall|k: int|
            0 <= k < away_durations(events).len() ==> #[trigger] away_durations(events)[k] >= 0,
    decreases events.len(),
{
    if events.len() > 0 {
        lemma_away_durations_nonnegative(events.drop_last());
        lemma_away_step(events);
        let prev = away_durations(events.drop_last());
        let cur = away_durations(events);
        assert forall|k: int| 0 <= k < cur.len() implies #[trigger] cur[k] >= 0 by {
            if cur != prev && k < prev.len() {
                assert(cur.drop_last()[k] == cur[k]);
            }
        }
    }
}

pub(crate) proof fn lemma_int_sum_nonnegative(s: Seq<int>)
    requires
        forall|k: int| 0 <= k < s.len() ==> #[trigger] s[k] >= 0,
    ensures
        int_sum(s) >= 0,
    decreases s.len(),
{
    if s.len() > 0 {
        let p = s.drop_last();
        assert forall|k: int| 0 <= k < p.len() implies #[trigger] p[k] >= 0 by {
            assert(p[k] == s[k]);
        }
        lemma_int_sum_nonnegative(p);
        assert(s[s.len() - 1] >= 0);
    }
}

pub(crate) proof fn lemma_int_sum_prefix(s: Seq<int>, i: int)
    requires
        0 <= i <= s.len(),
        forall|k: int| 0 <= k < s.len() ==> #[trigger] s[k] >= 0,
    ensures
        0 <= int_sum(s.take(i)) <= int_sum(s),
    decreases s.len() - i,
{
    let t = s.take(i);
    assert forall|k: int| 0 <= k < t.len() implies #[trigger] t[k] >= 0 by {
        assert(t[k] == s[k]);
    }
    lemma_int_sum_nonnegative(t);
    if i < s.len() {
        lemma_int_sum_prefix(s, i + 1);
        assert(s.take(i + 1).drop_last() =~= s.take(i));
        assert(s[i] >= 0);
    } else {
        assert(s.take(i) =~= s);
    }
}

pub(crate) proof fn lemma_int_max_bounds(s: Seq<int>)
    requires
        forall|k: int| 0 <= k < s.len() ==> #[trigger] s[k] >= 0,
    ensures
        0 <= int_max_or_zero(s) <= int_sum(s),
    decreases s.len(),
{
    if s.len() > 0 {
        lemma_int_max_bounds(s.drop_last());
    }
}

// ---------------------------------------------------------------------------
// Laws of the metrics.
// ---------------------------------------------------------------------------

pub(crate) proof fn lemma_type_counts_bound(events: Seq<BehaviorEvent>)
    ensures
        count_where(events, of_type(EventType::VisibilityChange)) + count_where(
            events,
            of_type(EventType::TabSwitch),
        ) + count_where(events, of_type(EventType::WindowBlur)) + count_where(
            events,
            of_type(EventType::Copy),
        ) + count_where(events, of_type(EventType::Paste)) <= events.len(),
    decreases events.len(),
{
    if events.len() > 0 {
        lemma_type_counts_bound(events.drop_last());
    }
}

pub(crate) proof fn lemma_away_count_bound(events: Seq<BehaviorEvent>)
    ensures
        away_tracking(events).1.len() + (if away_tracking(events).0 is Some { 1int } else { 0int })
            <= count_where(events, of_type(EventType::VisibilityChange)) + count_where(
            events,
            of_type(EventType::WindowBlur),
        ),
    decreases events.len(),
{
    if events.len() > 0 {
        lemma_away_count_bound(events.drop_last());
    }
}

pub(crate) proof fn lemma_switch_instants_bound(events: Seq<BehaviorEvent>)
    ensures
        switch_instants(events).len() <= count_where(events, of_type(EventType::VisibilityChange))
            + count_where(events, of_type(EventType::TabSwitch)) + count_where(
            events,
            of_type(EventType::WindowBlur),
        ),
    decreases events.len(),
{
    if events.len() > 0 {
        lemma_switch_instants_bound(events.drop_last());
    }
}

pub(crate) proof fn lemma_all_instants_len(events: Seq<BehaviorEvent>)
    ensures
        all_instants(events).len() == events.len(),
    decreases events.len(),
{
    if events.len() > 0 {
        lemma_all_instants_len(events.drop_last());
    }
}

pub(crate) proof fn lemma_copy_log_len(events: Seq<BehaviorEvent>)
    ensures
        copy_log(events).len() == count_where(events, of_type(EventType::Copy)),
    decreases events.len(),
{
    if events.len() > 0 {
        lemma_copy_log_len(events.drop_last());
    }
}

pub(crate) proof fn lemma_switch_stats_bounds(ts: Seq<Timestamp>, k: int)
    requires
        0 <= k <= ts.len(),
    ensures
        switch_stats(ts, k).0 <= k,
        switch_stats(ts, k).1 <= k,
        switch_stats(ts, k).2 <= ts.len(),
    decreases k,
{
    if k > 0 {
        lemma_switch_stats_bounds(ts, k - 1);
        lemma_switch_window_bounds(ts, k - 1, k - 1);
    }
}

pub(crate) proof fn lemma_frequent_copy_bound(cs: Seq<(Timestamp, usize)>, k: int)
    requires
        0 <= k,
    ensures
        frequent_copy_count(cs, k) <= k,
    decreases k,
{
    if k > 0 {
        lemma_frequent_copy_bound(cs, k - 1);
    }
}

/// The metrics of any session agree with one another: no event is counted
/// under two types; every closed away interval was opened by hiding the
/// page or blurring the window; the longest away interval and the longest
/// copy are parts of their totals; switch and copy patterns count no more
/// starts than there are switches and copies; and bursts count no more
/// events than were recorded.
pub proof fn lemma_metrics_consistent(
    m: BehaviorMetrics,
    events: Seq<BehaviorEvent>,
    answers: Seq<QuestionAnswer>,
    c: DetectionConfig,
)
    requires
        metrics_of(m, events, answers, c),
    ensures
        m.visibility_changes + m.tab_switches + m.window_blurs + m.copy_events + m.paste_events
            <= m.total_events,
        m.away_count <= m.visibility_changes + m.window_blurs,
        0 <= m.max_away_duration_ms <= m.total_away_duration_ms,
        m.max_single_copy_characters <= m.total_copy_characters,
        m.frequent_switches_1min <= m.visibility_changes + m.tab_switches + m.window_blurs,
        m.frequent_switches_5min <= m.visibility_changes + m.tab_switches + m.window_blurs,
        m.max_switches_per_minute <= m.visibility_changes + m.tab_switches + m.window_blurs,
        m.frequent_copy_1min <= m.copy_events,
        m.rapid_succession_events <= m.total_events,
{
    lemma_type_counts_bound(events);
    lemma_away_count_bound(events);
    lemma_away_durations_nonnegative(events);
    lemma_int_max_bounds(away_durations(events));
    lemma_max_over_bound(events, copied_len());
    let ts = switch_instants(events);
    lemma_switch_instants_bound(events);
    lemma_switch_stats_bounds(ts, ts.len() as int);
    lemma_copy_log_len(events);
    lemma_frequent_copy_bound(copy_log(events), copy_log(events).len() as int);
    lemma_all_instants_len(events);
    if events.len() >= 2 {
        lemma_rapid_runs_bounds(all_instants(events), c.rapid_succession_interval_ms as int, events.len() as int);
    }
}


/// The largest of a sequence of non-negative integers bounds every element
/// and is one of them, or 0 for the empty sequence.
pub(crate) proof fn lemma_int_max_is_largest(s: Seq<int>)
    requires
        forall|k: int| 0 <= k < s.len() ==> #[trigger] s[k] >= 0,
    ensures
        forall|k: int| 0 <= k < s.len() ==> #[trigger] s[k] <= int_max_or_zero(s),
        s.len() == 0 ==> int_max_or_zero(s) == 0,
        s.len() > 0 ==> exists|k: int| 0 <= k < s.len() && #[trigger] s[k] == int_max_or_zero(s),
    decreases s.len(),
{
    if s.len() > 0 {
        let p = s.drop_last();
        assert forall|k: int| 0 <= k < p.len() implies #[trigger] p[k] >= 0 by {
            assert(p[k] == s[k]);
        }
        lemma_int_max_is_largest(p);
        assert forall|k: int| 0 <= k < s.len() implies #[trigger] s[k] <= int_max_or_zero(s) by {
            if k < p.len() {
                assert(p[k] == s[k]);
            }
        }
        if p.len() > 0 && s.last() <= int_max_or_zero(p) {
            let w = choose|k: int| 0 <= k < p.len() && #[trigger] p[k] == int_max_or_zero(p);
            assert(s[w] == p[w]);
        } else {
            assert(s[s.len() - 1] == int_max_or_zero(s));
        }
    }
}

/// The longest absence reported is the longest closed away interval: it is
/// at least every closed interval and equals one of them, and it is 0 when
/// no interval was closed.
pub proof fn lemma_max_away_is_longest_absence(
    m: BehaviorMetrics,
    events: Seq<BehaviorEvent>,
    answers: Seq<QuestionAnswer>,
    c: DetectionConfig,
)
    requires
        metrics_of(m, events, answers, c),
    ensures
        forall|k: int|
            0 <= k < away_durations(events).len() ==> #[trigger] away_durations(events)[k]
                <= m.max_away_duration_ms,
        away_durations(events).len() == 0 ==> m.max_away_duration_ms == 0,
        away_durations(events).len() > 0 ==> exists|k: int|
            0 <= k < away_durations(events).len() && #[trigger] away_durations(events)[k]
                == m.max_away_duration_ms,
{
    lemma_away_durations_nonnegative(events);
    lemma_int_max_is_largest(away_durations(events));
}

/// The longest single copy reported is at least the bytes of every copy
/// event, and equals those of one of them (0 when nothing was copied).
pub proof fn lemma_max_copy_is_longest_copy(
    m: BehaviorMetrics,
    events: Seq<BehaviorEvent>,
    answers: Seq<QuestionAnswer>,
    c: DetectionConfig,
)
    requires
        metrics_of(m, events, answers, c),
    ensures
        forall|i: int|
            0 <= i < events.len() && (#[trigger] events[i]).event_type == EventType::Copy
                ==> detail_len(events[i]) <= m.max_single_copy_characters,
        m.max_single_copy_characters == 0 || exists|i: int|
            0 <= i < events.len() && (#[trigger] events[i]).event_type == EventType::Copy
                && detail_len(events[i]) == m.max_single_copy_characters,
{
    lemma_max_over_largest(events, copied_len());
}

pub(crate) proof fn lemma_max_over_largest(events: Seq<BehaviorEvent>, f: spec_fn(BehaviorEvent) -> nat)
    ensures
        forall|i: int| 0 <= i < events.len() ==> f(#[trigger] events[i]) <= max_over(events, f),
        max_over(events, f) == 0 || exists|i: int|
            0 <= i < events.len() && f(#[trigger] events[i]) == max_over(events, f),
    decreases events.len(),
{
    if events.len() > 0 {
        let p = events.drop_last();
        lemma_max_over_largest(p, f);
        assert forall|i: int| 0 <= i < events.len() implies f(#[trigger] events[i]) <= max_over(
            events,
            f,
        ) by {
            if i < p.len() {
                assert(p[i] == events[i]);
            }
        }
        if f(events.last()) > max_over(p, f) {
            assert(f(events[events.len() - 1]) == max_over(events, f));
        } else if max_over(p, f) != 0 {
            let w = choose|i: int| 0 <= i < p.len() && f(#[trigger] p[i]) == max_over(p, f);
            assert(events[w] == p[w]);
        }
    }
}

/// The event opens an away interval: the page is hidden or the window loses
/// focus.
pub open spec fn opens_absence(e: BehaviorEvent) -> bool {
    ||| (e.event_type == EventType::VisibilityChange && has_state(e, "hidden"@))
    ||| e.event_type == EventType::WindowBlur
}

/// The event ends an absence: the page becomes visible, or the window or
/// page regains focus.
pub open spec fn ends_absence(e: BehaviorEvent) -> bool {
    ||| (e.event_type == EventType::VisibilityChange && has_state(e, "visible"@))
    ||| e.event_type == EventType::WindowFocus
    ||| e.event_type == EventType::PageFocus
}

/// Every closed away interval needs an opening of its own: the closed
/// intervals, plus the one still open if any, are no more than the events
/// that hide the page or blur the window. And after an event that ends an
/// absence, no interval is open.
pub proof fn lemma_absences_need_openings(events: Seq<BehaviorEvent>)
    ensures
        away_durations(events).len() + (if away_tracking(events).0 is Some { 1int } else { 0int })
            <= count_where(events, |e: BehaviorEvent| opens_absence(e)),
        events.len() > 0 && ends_absence(events.last()) ==> away_tracking(events).0 is None,
    decreases events.len(),
{
    reveal_strlit("hidden");
    reveal_strlit("visible");
    assert("hidden"@[0] != "visible"@[0]);
    if events.len() > 0 {
        lemma_absences_need_openings(events.drop_last());
    }
}

/// An away interval that is opened and then closed adds its own length to
/// the closed intervals, in whole milliseconds from the opening event to
/// the closing one (0 if the clock went back), after those closed before;
/// afterwards no interval is open.
pub proof fn lemma_absence_adds_its_length(
    events: Seq<BehaviorEvent>,
    leave: BehaviorEvent,
    back: BehaviorEvent,
)
    requires
        opens_absence(leave),
        ends_absence(back),
    ensures
        away_durations(events.push(leave).push(back)) == away_durations(events).push(
            if millis_between(back.event_time, leave.event_time) > 0 {
                millis_between(back.event_time, leave.event_time)
            } else {
                0
            },
        ),
        away_tracking(events.push(leave).push(back)).0 is None,
{
    reveal_strlit("hidden");
    reveal_strlit("visible");
    assert("hidden"@[0] != "visible"@[0]);
    let once = events.push(leave);
    let twice = once.push(back);
    assert(once.drop_last() =~= events);
    assert(twice.drop_last() =~= once);
    assert(away_tracking(once) == (Some(leave.event_time), away_durations(events)));
}

/// An event that neither opens nor ends an absence leaves the away
/// tracking as it was.
pub proof fn lemma_other_events_keep_absences(events: Seq<BehaviorEvent>, e: BehaviorEvent)
    requires
        !opens_absence(e),
        !ends_absence(e),
    ensures
        away_tracking(events.push(e)) == away_tracking(events),
{
    assert(events.push(e).drop_last() =~= events);
}

} // verus!
