//! The detection service: measures a session's recorded behaviour and
//! judges it by the suspicion rules.

use crate::config::DetectionConfig;
use crate::metrics::{
    all_instants, answer_bytes, away_durations, away_tracking, copied_len, copy_log, count_where,
    has_state, int_max_or_zero, int_sum, keyword_hit, lemma_answer_bytes_prefix,
    lemma_away_durations_nonnegative, lemma_count_where_bound, lemma_int_max_bounds,
    lemma_int_sum_prefix, lemma_sum_over_prefix, max_over, mentions_any, metrics_fit, metrics_of,
    of_type, pasted_len, sum_over, switch_instants, BehaviorMetrics,
};
use crate::models::{BehaviorEvent, EventType, ExamSession, QuestionAnswer};
use crate::patterns::{
    copy_window, frequent_copies, frequent_copy_count, lemma_switch_window_bounds, rapid_runs,
    rapid_succession, switch_frequency, switch_stats, switch_window,
};
use crate::rules::{
    is_suspicious, lemma_total_weight_when, listed_if, paste_ratio_exceeded, risk_score,
    total_weight, violation_weight, violations_of, violations_upto, Violation,
};
use crate::text::{contains_text, text_contains, text_eq};
use crate::time::{whole_millis_between, whole_seconds_between, Timestamp};
use vstd::prelude::*;

verus! {

/// The verdict on a session: whether it is suspicious, its risk score out
/// of 100, the rules it broke, and the metrics judged.
#[derive(Debug, Clone)]
pub struct SuspicionAnalysis {
    pub is_suspicious: bool,
    pub risk_score: u32,
    pub reasons: Vec<Violation>,
    pub metrics: BehaviorMetrics,
}

/// Measures sessions and judges them by its configuration.
#[derive(Clone)]
pub struct BehaviorDetectionService {
    pub config: DetectionConfig,
}

impl BehaviorDetectionService {
    /// A detection service that judges sessions by `config`.
    pub fn new(config: DetectionConfig) -> (s: BehaviorDetectionService)
        ensures
            s.config == config,
    {
        BehaviorDetectionService { config }
    }

    /// Whether the event reports the page state `state`.
    fn visibility_is(event: &BehaviorEvent, state: &str) -> (r: bool)
        ensures
            r == has_state(*event, state@),
    {
        match &event.visibility_state {
            Some(s) => text_eq(s.as_str(), state),
            None => false,
        }
    }

    /// Whether some keyword occurs in `text`.
    fn mentions_keyword(text: &str, keywords: &Vec<String>) -> (r: bool)
        ensures
            r == mentions_any(text@, keywords@),
    {
        let mut k: usize = 0;
        while k < keywords.len()
            invariant
                k <= keywords.len(),
                forall|j: int| 0 <= j < k ==> !contains_text(text@, #[trigger] keywords@[j]@),
            decreases keywords.len() - k,
        {
            if text_contains(text, keywords[k].as_str()) {
                assert(contains_text(text@, keywords@[k as int]@));
                return true;
            }
            k += 1;
        }
        false
    }

    /// The lengths in milliseconds of the away intervals that the events
    /// close, in order: hiding the page or blurring the window opens an
    /// interval, showing the page or focusing the window or page closes it.
    pub fn collect_away_durations(events: &Vec<BehaviorEvent>) -> (away: Vec<i64>)
        ensures
            away@.len() == away_durations(events@).len(),
            forall|k: int| 0 <= k < away@.len() ==> #[trigger] away@[k] == away_durations(events@)[k],
    {
        let n = events.len();
        let mut away: Vec<i64> = Vec::new();
        let mut last_away_start: Option<Timestamp> = None;
        let mut i: usize = 0;
        while i < n
            invariant
                n == events@.len(),
                i <= n,
                last_away_start == away_tracking(events@.take(i as int)).0,
                away@.len() == away_tracking(events@.take(i as int)).1.len(),
                forall|k: int|
                    0 <= k < away@.len() ==> #[trigger] away@[k] == away_tracking(
                        events@.take(i as int),
                    ).1[k],
            decreases n - i,
        {
            let event = &events[i];
            let ghost next = events@.take(i + 1);
            proof {
                assert(next.drop_last() =~= events@.take(i as int));
                assert(next.last() == events@[i as int]);
            }
            let closes = match event.event_type {
                EventType::VisibilityChange => {
                    if Self::visibility_is(event, "hidden") {
                        last_away_start = Some(event.event_time);
                        false
                    } else {
                        Self::visibility_is(event, "visible")
                    }
                },
                EventType::WindowBlur => {
                    last_away_start = Some(event.event_time);
                    false
                },
                EventType::WindowFocus | EventType::PageFocus => true,
                _ => false,
            };
            if closes {
                if let Some(start) = last_away_start {
                    let duration = whole_millis_between(&event.event_time, &start);
                    away.push(if duration > 0 { duration } else { 0 });
                    last_away_start = None;
                }
            }
            proof {
                assert forall|k: int| 0 <= k < away@.len() implies #[trigger] away@[k] == away_tracking(
                    next,
                ).1[k] by {}
            }
            i += 1;
        }
        proof {
            assert(events@.take(n as int) =~= events@);
        }
        away
    }

    /// Whether the sums that the metrics of these events and answers
    /// accumulate fit their machine integers, so that the metrics can be
    /// computed.
    pub fn metrics_within_limits(events: &Vec<BehaviorEvent>, answers: &Vec<QuestionAnswer>) -> (r:
        bool)
        ensures
            r == metrics_fit(events@, answers@),
    {
        let n = events.len();
        let mut copied: usize = 0;
        let mut pasted: usize = 0;
        let mut i: usize = 0;
        while i < n
            invariant
                n == events@.len(),
                i <= n,
                copied == sum_over(events@.take(i as int), copied_len()),
                pasted == sum_over(events@.take(i as int), pasted_len()),
            decreases n - i,
        {
            proof {
                assert(events@.take(i + 1).drop_last() =~= events@.take(i as int));
                lemma_sum_over_prefix(events@, copied_len(), i + 1);
                lemma_sum_over_prefix(events@, pasted_len(), i + 1);
            }
            let event = &events[i];
            if let Some(details) = &event.details {
                let len = details.as_str().as_bytes().len();
                match event.event_type {
                    EventType::Copy => {
                        match copied.checked_add(len) {
                            Some(sum) => copied = sum,
                            None => return false,
                        }
                    },
                    EventType::Paste => {
                        match pasted.checked_add(len) {
                            Some(sum) => pasted = sum,
                            None => return false,
                        }
                    },
                    _ => {},
                }
            }
            i += 1;
        }
        proof {
            assert(events@.take(n as int) =~= events@);
        }
        let mut answered: usize = 0;
        let mut a: usize = 0;
        while a < answers.len()
            invariant
                a <= answers@.len(),
                answered == answer_bytes(answers@.take(a as int)),
            decreases answers@.len() - a,
        {
            proof {
                assert(answers@.take(a + 1).drop_last() =~= answers@.take(a as int));
                lemma_answer_bytes_prefix(answers@, a + 1);
            }
            if let Some(text) = &answers[a].answer {
                match answered.checked_add(text.as_str().as_bytes().len()) {
                    Some(sum) => answered = sum,
                    None => return false,
                }
            }
            a += 1;
        }
        proof {
            assert(answers@.take(answers@.len() as int) =~= answers@);
        }
        let away = Self::collect_away_durations(events);
        let ghost durations = away_durations(events@);
        proof {
            lemma_away_durations_nonnegative(events@);
        }
        let mut total: i64 = 0;
        let mut k: usize = 0;
        while k < away.len()
            invariant
                durations == away_durations(events@),
                away@.len() == durations.len(),
                forall|j: int| 0 <= j < durations.len() ==> #[trigger] away@[j] == durations[j],
                forall|j: int| 0 <= j < durations.len() ==> #[trigger] durations[j] >= 0,
                k <= durations.len(),
                total == int_sum(durations.take(k as int)),
            decreases durations.len() - k,
        {
            proof {
                assert(durations.take(k + 1).drop_last() =~= durations.take(k as int));
                assert(durations.take(k + 1).last() == durations[k as int]);
                lemma_int_sum_prefix(durations, k + 1);
                assert(int_sum(durations.take(k + 1)) == total + away@[k as int]);
            }
            match total.checked_add(away[k]) {
                Some(sum) => total = sum,
                None => return false,
            }
            k += 1;
        }
        proof {
            assert(durations.take(durations.len() as int) =~= durations);
        }
        true
    }

    /// The behaviour metrics of a session from its events, in the order they
    /// were recorded, and its answers.
    #[verifier::rlimit(60)]
    pub fn calculate_metrics(&self, events: &Vec<BehaviorEvent>, answers: &Vec<QuestionAnswer>) -> (m:
        BehaviorMetrics)
        requires
            metrics_fit(events@, answers@),
        ensures
            metrics_of(m, events@, answers@, self.config),
    {
        let n = events.len();
        let mut visibility_changes: usize = 0;
        let mut tab_switches: usize = 0;
        let mut window_blurs: usize = 0;
        let mut copy_events: usize = 0;
        let mut paste_events: usize = 0;
        let mut switch_events: Vec<Timestamp> = Vec::new();
        let mut copy_events_timestamps: Vec<(Timestamp, usize)> = Vec::new();
        let mut paste_characters: usize = 0;
        let mut event_timestamps: Vec<Timestamp> = Vec::new();
        let mut total_copy_characters: usize = 0;
        let mut max_single_copy_characters: usize = 0;
        let mut suspicious_content_matches: usize = 0;
        let ghost keywords = self.config.suspicious_keywords@;

        let mut i: usize = 0;
        while i < n
            invariant
                n == events@.len(),
                i <= n,
                metrics_fit(events@, answers@),
                keywords == self.config.suspicious_keywords@,
                visibility_changes == count_where(
                    events@.take(i as int),
                    of_type(EventType::VisibilityChange),
                ),
                tab_switches == count_where(events@.take(i as int), of_type(EventType::TabSwitch)),
                window_blurs == count_where(events@.take(i as int), of_type(EventType::WindowBlur)),
                copy_events == count_where(events@.take(i as int), of_type(EventType::Copy)),
                paste_events == count_where(events@.take(i as int), of_type(EventType::Paste)),
                visibility_changes <= i,
                tab_switches <= i,
                window_blurs <= i,
                copy_events <= i,
                paste_events <= i,
                switch_events@ == switch_instants(events@.take(i as int)),
                copy_events_timestamps@ == copy_log(events@.take(i as int)),
                event_timestamps@ == all_instants(events@.take(i as int)),
                paste_characters == sum_over(events@.take(i as int), pasted_len()),
                total_copy_characters == sum_over(events@.take(i as int), copied_len()),
                max_single_copy_characters == max_over(events@.take(i as int), copied_len()),
                suspicious_content_matches == count_where(
                    events@.take(i as int),
                    keyword_hit(keywords),
                ),
                suspicious_content_matches <= i,
            decreases n - i,
        {
            let event = &events[i];
            let ghost pre = events@.take(i as int);
            let ghost next = events@.take(i + 1);
            proof {
                assert(next.drop_last() =~= pre);
                assert(next.last() == events@[i as int]);
                lemma_sum_over_prefix(events@, copied_len(), i + 1);
                lemma_sum_over_prefix(events@, pasted_len(), i + 1);
                lemma_count_where_bound(pre, keyword_hit(keywords));
            }
            event_timestamps.push(event.event_time);
            match event.event_type {
                EventType::VisibilityChange => {
                    visibility_changes += 1;
                    if Self::visibility_is(event, "hidden") || Self::visibility_is(event, "visible") {
                        switch_events.push(event.event_time);
                    }
                },
                EventType::TabSwitch => {
                    tab_switches += 1;
                    switch_events.push(event.event_time);
                },
                EventType::WindowBlur => {
                    window_blurs += 1;
                    switch_events.push(event.event_time);
                },
                EventType::Copy => {
                    copy_events += 1;
                    match &event.details {
                        Some(details) => {
                            let content_len = details.as_str().as_bytes().len();
                            total_copy_characters += content_len;
                            if content_len > max_single_copy_characters {
                                max_single_copy_characters = content_len;
                            }
                            copy_events_timestamps.push((event.event_time, content_len));
                            if Self::mentions_keyword(
                                details.as_str(),
                                &self.config.suspicious_keywords,
                            ) {
                                suspicious_content_matches += 1;
                            }
                        },
                        None => {
                            copy_events_timestamps.push((event.event_time, 0));
                        },
                    }
                },
                EventType::Paste => {
                    paste_events += 1;
                    if let Some(details) = &event.details {
                        paste_characters += details.as_str().as_bytes().len();
                        if Self::mentions_keyword(details.as_str(), &self.config.suspicious_keywords) {
                            suspicious_content_matches += 1;
                        }
                    }
                },
                _ => {},
            }
            i += 1;
        }
        proof {
            assert(events@.take(n as int) =~= events@);
        }

        let mut total_answer_characters: usize = 0;
        let mut a: usize = 0;
        while a < answers.len()
            invariant
                a <= answers@.len(),
                answer_bytes(answers@) <= usize::MAX,
                total_answer_characters == answer_bytes(answers@.take(a as int)),
            decreases answers@.len() - a,
        {
            proof {
                assert(answers@.take(a + 1).drop_last() =~= answers@.take(a as int));
                lemma_answer_bytes_prefix(answers@, a + 1);
            }
            if let Some(ans) = &answers[a].answer {
                total_answer_characters += ans.as_str().as_bytes().len();
            }
            a += 1;
        }
        proof {
            assert(answers@.take(answers@.len() as int) =~= answers@);
        }

        let away_durations = Self::collect_away_durations(events);
        let ghost away = away_tracking(events@).1;
        proof {
            lemma_away_durations_nonnegative(events@);
            lemma_int_max_bounds(away);
        }
        let mut total_away_duration_ms: i64 = 0;
        let mut max_away_duration_ms: i64 = 0;
        let mut k: usize = 0;
        while k < away_durations.len()
            invariant
                away_durations@.len() == away.len(),
                forall|j: int| 0 <= j < away.len() ==> #[trigger] away_durations@[j] == away[j],
                forall|j: int| 0 <= j < away.len() ==> #[trigger] away[j] >= 0,
                int_sum(away) <= i64::MAX,
                k <= away.len(),
                total_away_duration_ms == int_sum(away.take(k as int)),
                max_away_duration_ms == int_max_or_zero(away.take(k as int)),
            decreases away.len() - k,
        {
            proof {
                assert(away.take(k + 1).drop_last() =~= away.take(k as int));
                lemma_int_sum_prefix(away, k + 1);
            }
            let d = away_durations[k];
            total_away_duration_ms += d;
            if d > max_away_duration_ms {
                max_away_duration_ms = d;
            }
            k += 1;
        }
        proof {
            assert(away.take(away.len() as int) =~= away);
        }

        let (frequent_switches_1min, frequent_switches_5min, max_switches_per_minute) =
            Self::calculate_switch_frequency(switch_events.as_slice());
        let frequent_copy_1min = Self::calculate_frequent_copy(copy_events_timestamps.as_slice());
        let rapid_succession_events = Self::calculate_rapid_succession(
            event_timestamps.as_slice(),
            self.config.rapid_succession_interval_ms,
        );

        BehaviorMetrics {
            total_events: n,
            visibility_changes,
            tab_switches,
            window_blurs,
            copy_events,
            paste_events,
            total_away_duration_ms,
            max_away_duration_ms,
            away_count: away_durations.len(),
            frequent_switches_1min,
            frequent_switches_5min,
            max_switches_per_minute,
            total_copy_characters,
            max_single_copy_characters,
            frequent_copy_1min,
            total_paste_characters: paste_characters,
            total_answer_characters,
            rapid_succession_events,
            suspicious_content_matches,
        }
    }

    /// Window statistics of the switch instants `events`, in their order:
    /// (starts of a minute with at least three switches, starts of five
    /// minutes with at least five switches, most switches within a minute).
    pub fn calculate_switch_frequency(events: &[Timestamp]) -> (r: (usize, usize, usize))
        ensures
            r.0 == switch_frequency(events@).0,
            r.1 == switch_frequency(events@).1,
            r.2 == switch_frequency(events@).2,
    {
        let n = events.len();
        if n == 0 {
            return (0, 0, 0);
        }
        let mut frequent_1min: usize = 0;
        let mut frequent_5min: usize = 0;
        let mut max_per_minute: usize = 0;
        let mut i: usize = 0;
        while i < n
            invariant
                n == events@.len(),
                i <= n,
                frequent_1min == switch_stats(events@, i as int).0,
                frequent_5min == switch_stats(events@, i as int).1,
                max_per_minute == switch_stats(events@, i as int).2,
                frequent_1min <= i,
                frequent_5min <= i,
                max_per_minute <= n,
            decreases n - i,
        {
            let mut count_1min: usize = 0;
            let mut count_5min: usize = 0;
            let mut j: usize = i;
            while j < n
                invariant_except_break
                    count_1min + switch_window(events@, i as int, j as int).0 == switch_window(
                        events@,
                        i as int,
                        i as int,
                    ).0,
                    count_5min + switch_window(events@, i as int, j as int).1 == switch_window(
                        events@,
                        i as int,
                        i as int,
                    ).1,
                invariant
                    n == events@.len(),
                    i < n,
                    i <= j <= n,
                    count_1min <= count_5min,
                    count_5min == j - i,
                ensures
                    count_1min == switch_window(events@, i as int, i as int).0,
                    count_5min == switch_window(events@, i as int, i as int).1,
                decreases n - j,
            {
                let duration = whole_seconds_between(&events[j], &events[i]);
                if duration < 60 {
                    count_1min += 1;
                }
                if duration < 300 {
                    count_5min += 1;
                } else {
                    break;
                }
                j += 1;
            }
            proof {
                lemma_switch_window_bounds(events@, i as int, i as int);
            }
            if count_1min >= 3 {
                frequent_1min += 1;
            }
            if count_5min >= 5 {
                frequent_5min += 1;
            }
            if count_1min > max_per_minute {
                max_per_minute = count_1min;
            }
            i += 1;
        }
        (frequent_1min, frequent_5min, max_per_minute)
    }

    /// How many copies (instant, copied length) start a run of at least two
    /// copies within a minute.
    pub fn calculate_frequent_copy(events: &[(Timestamp, usize)]) -> (r: usize)
        ensures
            r == frequent_copies(events@),
    {
        let n = events.len();
        if n == 0 {
            return 0;
        }
        let mut frequent: usize = 0;
        let mut i: usize = 0;
        while i < n
            invariant
                n == events@.len(),
                i <= n,
                frequent == frequent_copy_count(events@, i as int),
                frequent <= i,
            decreases n - i,
        {
            let mut count: usize = 0;
            let mut j: usize = i;
            while j < n
                invariant_except_break
                    count + copy_window(events@, i as int, j as int) == copy_window(
                        events@,
                        i as int,
                        i as int,
                    ),
                invariant
                    n == events@.len(),
                    i < n,
                    i <= j <= n,
                    count == j - i,
                ensures
                    count == copy_window(events@, i as int, i as int),
                decreases n - j,
            {
                let duration = whole_seconds_between(&events[j].0, &events[i].0);
                if duration < 60 {
                    count += 1;
                } else {
                    break;
                }
                j += 1;
            }
            if count >= 2 {
                frequent += 1;
            }
            i += 1;
        }
        frequent
    }

    /// How many of the `timestamps` end a run of at least five events each
    /// less than `interval_ms` after the one before.
    pub fn calculate_rapid_succession(timestamps: &[Timestamp], interval_ms: i64) -> (r: usize)
        ensures
            r == rapid_succession(timestamps@, interval_ms as int),
    {
        let n = timestamps.len();
        if n < 2 {
            return 0;
        }
        let mut rapid_count: usize = 0;
        let mut current_sequence: usize = 1;
        let mut i: usize = 1;
        while i < n
            invariant
                n == timestamps@.len(),
                1 <= i <= n,
                rapid_count == rapid_runs(timestamps@, interval_ms as int, i as int).0,
                current_sequence == rapid_runs(timestamps@, interval_ms as int, i as int).1,
                rapid_count < i,
                1 <= current_sequence <= i,
            decreases n - i,
        {
            let diff = whole_millis_between(&timestamps[i], &timestamps[i - 1]);
            if diff < interval_ms {
                current_sequence += 1;
                if current_sequence >= 5 {
                    rapid_count += 1;
                }
            } else {
                current_sequence = 1;
            }
            i += 1;
        }
        rapid_count
    }

    /// Records a rule check: when `broken`, the violation joins the list and
    /// its weight joins the score.
    fn apply_rule(reasons: &mut Vec<Violation>, score: &mut u32, broken: bool, v: Violation, weight: u32)
        requires
            weight == violation_weight(v),
            weight <= 60,
            *old(score) == total_weight(old(reasons)@),
            *old(score) <= 1000,
        ensures
            final(reasons)@ == old(reasons)@ + listed_if(broken, v),
            *final(score) == total_weight(final(reasons)@),
            *final(score) <= *old(score) + 60,
    {
        proof {
            lemma_total_weight_when(old(reasons)@, broken, v);
        }
        if broken {
            reasons.push(v);
            *score = *score + weight;
        }
        assert(reasons@ =~= old(reasons)@ + listed_if(broken, v));
    }

    /// Checks the rules on counts of page switches, away time and clipboard
    /// use (the first eight): the rules broken, in order, and their risk
    /// points.
    fn check_count_rules(&self, m: &BehaviorMetrics) -> (r: (Vec<Violation>, u32))
        ensures
            r.0@ == violations_upto(*m, self.config, 8),
            r.1 == total_weight(r.0@),
            r.1 <= 480,
    {
        let c = &self.config;
        let mut reasons: Vec<Violation> = Vec::new();
        let mut score: u32 = 0;
        assert(total_weight(reasons@) == 0);
        assert(reasons@ == violations_upto(*m, self.config, 0));
        Self::apply_rule(
            &mut reasons,
            &mut score,
            m.visibility_changes > c.max_visibility_changes,
            Violation::VisibilityChanges { count: m.visibility_changes, limit: c.max_visibility_changes },
            20,
        );
        assert(reasons@ == violations_upto(*m, self.config, 1));
        Self::apply_rule(
            &mut reasons,
            &mut score,
            m.tab_switches > c.max_tab_switches,
            Violation::TabSwitches { count: m.tab_switches, limit: c.max_tab_switches },
            25,
        );
        assert(reasons@ == violations_upto(*m, self.config, 2));
        Self::apply_rule(
            &mut reasons,
            &mut score,
            m.window_blurs > c.max_window_blurs,
            Violation::WindowBlurs { count: m.window_blurs, limit: c.max_window_blurs },
            15,
        );
        assert(reasons@ == violations_upto(*m, self.config, 3));
        Self::apply_rule(
            &mut reasons,
            &mut score,
            m.total_away_duration_ms > c.max_away_duration_ms,
            Violation::TotalAwayDuration {
                total_ms: m.total_away_duration_ms,
                limit_ms: c.max_away_duration_ms,
            },
            30,
        );
        assert(reasons@ == violations_upto(*m, self.config, 4));
        Self::apply_rule(
            &mut reasons,
            &mut score,
            m.max_away_duration_ms > c.max_single_away_duration_ms,
            Violation::SingleAwayDuration {
                max_ms: m.max_away_duration_ms,
                limit_ms: c.max_single_away_duration_ms,
            },
            25,
        );
        assert(reasons@ == violations_upto(*m, self.config, 5));
        Self::apply_rule(
            &mut reasons,
            &mut score,
            m.copy_events > c.max_copy_events,
            Violation::CopyEvents { count: m.copy_events, limit: c.max_copy_events },
            35,
        );
        assert(reasons@ == violations_upto(*m, self.config, 6));
        Self::apply_rule(
            &mut reasons,
            &mut score,
            m.paste_events > c.max_paste_events,
            Violation::PasteEvents { count: m.paste_events, limit: c.max_paste_events },
            40,
        );
        assert(reasons@ == violations_upto(*m, self.config, 7));
        Self::apply_rule(
            &mut reasons,
            &mut score,
            m.frequent_switches_1min > c.max_frequent_switches_1min,
            Violation::FrequentSwitches1Min {
                count: m.frequent_switches_1min,
                limit: c.max_frequent_switches_1min,
            },
            35,
        );
        assert(reasons@ == violations_upto(*m, self.config, 8));
        (reasons, score)
    }

    /// Checks the remaining rules, on switch and copy patterns, clipboard
    /// volume, the pasted share of the answers, bursts of events and
    /// keywords, adding the broken ones and their risk points.
    fn check_pattern_rules(&self, m: &BehaviorMetrics, reasons: &mut Vec<Violation>, score: &mut u32)
        requires
            old(reasons)@ == violations_upto(*m, self.config, 8),
            *old(score) == total_weight(old(reasons)@),
            *old(score) <= 480,
        ensures
            final(reasons)@ == violations_of(*m, self.config),
            *final(score) == total_weight(final(reasons)@),
    {
        let c = &self.config;
        Self::apply_rule(
            reasons,
            score,
            m.frequent_switches_5min > c.max_frequent_switches_5min,
            Violation::FrequentSwitches5Min {
                count: m.frequent_switches_5min,
                limit: c.max_frequent_switches_5min,
            },
            30,
        );
        assert(reasons@ == violations_upto(*m, self.config, 9));
        Self::apply_rule(
            reasons,
            score,
            m.max_switches_per_minute > c.max_switches_per_minute,
            Violation::SwitchesPerMinute {
                count: m.max_switches_per_minute,
                limit: c.max_switches_per_minute,
            },
            40,
        );
        assert(reasons@ == violations_upto(*m, self.config, 10));
        Self::apply_rule(
            reasons,
            score,
            m.total_copy_characters > c.max_copy_characters,
            Violation::CopyCharacters { count: m.total_copy_characters, limit: c.max_copy_characters },
            45,
        );
        assert(reasons@ == violations_upto(*m, self.config, 11));
        Self::apply_rule(
            reasons,
            score,
            m.max_single_copy_characters > c.max_single_copy_characters,
            Violation::SingleCopyCharacters {
                count: m.max_single_copy_characters,
                limit: c.max_single_copy_characters,
            },
            50,
        );
        assert(reasons@ == violations_upto(*m, self.config, 12));
        Self::apply_rule(
            reasons,
            score,
            m.frequent_copy_1min > c.max_frequent_copy_1min,
            Violation::FrequentCopy1Min {
                count: m.frequent_copy_1min,
                limit: c.max_frequent_copy_1min,
            },
            40,
        );
        assert(reasons@ == violations_upto(*m, self.config, 13));
        let ratio_exceeded = self.paste_ratio_check(m);
        Self::apply_rule(
            reasons,
            score,
            ratio_exceeded,
            Violation::PasteToAnswerRatio {
                paste_characters: m.total_paste_characters,
                answer_characters: m.total_answer_characters,
                limit_per_mille: c.max_paste_to_answer_per_mille,
            },
            55,
        );
        assert(reasons@ == violations_upto(*m, self.config, 14));
        Self::apply_rule(
            reasons,
            score,
            m.rapid_succession_events > c.max_rapid_succession_events,
            Violation::RapidSuccession {
                count: m.rapid_succession_events,
                limit: c.max_rapid_succession_events,
            },
            30,
        );
        assert(reasons@ == violations_upto(*m, self.config, 15));
        Self::apply_rule(
            reasons,
            score,
            m.suspicious_content_matches > 0,
            Violation::SuspiciousContent { matches: m.suspicious_content_matches },
            60,
        );
        assert(reasons@ == violations_upto(*m, self.config, 16));
    }

    /// Whether the pasted share of the answers exceeds the configured limit,
    /// with enough pasted text to judge.
    fn paste_ratio_check(&self, m: &BehaviorMetrics) -> (r: bool)
        ensures
            r == paste_ratio_exceeded(*m, self.config),
    {
        let c = &self.config;
        let paste = m.total_paste_characters as u128;
        let answered = m.total_answer_characters as u128;
        let limit = c.max_paste_to_answer_per_mille as u128;
        assert(limit * answered <= u128::MAX) by (nonlinear_arith)
            requires
                limit <= usize::MAX,
                answered <= usize::MAX,
                usize::MAX < 0x1_0000_0000_0000_0000,
        ;
        m.total_answer_characters > 0 && paste * 1000 > limit * answered
            && m.total_paste_characters >= c.min_paste_characters_for_analysis
    }

    /// Judges metrics against the rules: whether the session is suspicious,
    /// its risk score (capped at 100), and the rules it broke in the order
    /// they are checked.
    pub fn evaluate_metrics(&self, metrics: &BehaviorMetrics) -> (r: (bool, u32, Vec<Violation>))
        ensures
            r.0 == is_suspicious(*metrics, self.config),
            r.1 == risk_score(*metrics, self.config),
            r.1 <= 100,
            r.2@ == violations_of(*metrics, self.config),
    {
        let c = &self.config;
        let (mut reasons, mut score) = self.check_count_rules(metrics);
        self.check_pattern_rules(metrics, &mut reasons, &mut score);
        let suspicious = score >= c.risk_score_threshold || reasons.len() > 0;
        let capped = if score > 100 { 100 } else { score };
        (suspicious, capped, reasons)
    }

    /// Measures a session from its events and answers and judges it.
    pub fn analyze_records(&self, events: &Vec<BehaviorEvent>, answers: &Vec<QuestionAnswer>) -> (a:
        SuspicionAnalysis)
        requires
            metrics_fit(events@, answers@),
        ensures
            metrics_of(a.metrics, events@, answers@, self.config),
            a.is_suspicious == is_suspicious(a.metrics, self.config),
            a.risk_score == risk_score(a.metrics, self.config),
            a.reasons@ == violations_of(a.metrics, self.config),
    {
        let metrics = self.calculate_metrics(events, answers);
        let (is_suspicious, risk_score, reasons) = self.evaluate_metrics(&metrics);
        SuspicionAnalysis { is_suspicious, risk_score, reasons, metrics }
    }

    /// After an event is judged: the session gets flagged when the event
    /// made it suspicious, the session exists, and it was not flagged
    /// before.
    pub fn should_flag_session(is_suspicious: bool, session: &Option<ExamSession>) -> (r: bool)
        ensures
            r == (is_suspicious && (session matches Some(s) && !s.is_suspicious)),
    {
        match session {
            Some(s) => is_suspicious && !s.is_suspicious,
            None => false,
        }
    }

}

} // verus!
