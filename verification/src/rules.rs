//! The suspicion rules: which rules a session's metrics break, the risk
//! points they add up to, and when a session counts as suspicious.

use crate::config::DetectionConfig;
use crate::metrics::BehaviorMetrics;
use vstd::prelude::*;

verus! {

// ---------------------------------------------------------------------------
// Suspicion rules.
// ---------------------------------------------------------------------------

/// A rule that a session's metrics broke, with the observed value and the
/// threshold it exceeded.
#[derive(Debug, Clone, Copy, PartialEq, Eq, Structural)]
pub enum Violation {
    VisibilityChanges { count: usize, limit: usize },
    TabSwitches { count: usize, limit: usize },
    WindowBlurs { count: usize, limit: usize },
    TotalAwayDuration { total_ms: i64, limit_ms: i64 },
    SingleAwayDuration { max_ms: i64, limit_ms: i64 },
    CopyEvents { count: usize, limit: usize },
    PasteEvents { count: usize, limit: usize },
    FrequentSwitches1Min { count: usize, limit: usize },
    FrequentSwitches5Min { count: usize, limit: usize },
    SwitchesPerMinute { count: usize, limit: usize },
    CopyCharacters { count: usize, limit: usize },
    SingleCopyCharacters { count: usize, limit: usize },
    FrequentCopy1Min { count: usize, limit: usize },
    PasteToAnswerRatio { paste_characters: usize, answer_characters: usize, limit_per_mille: usize },
    RapidSuccession { count: usize, limit: usize },
    SuspiciousContent { matches: usize },
}

/// Risk points that a broken rule adds.
pub open spec fn violation_weight(v: Violation) -> nat {
    match v {
        Violation::VisibilityChanges { .. } => 20,
        Violation::TabSwitches { .. } => 25,
        Violation::WindowBlurs { .. } => 15,
        Violation::TotalAwayDuration { .. } => 30,
        Violation::SingleAwayDuration { .. } => 25,
        Violation::CopyEvents { .. } => 35,
        Violation::PasteEvents { .. } => 40,
        Violation::FrequentSwitches1Min { .. } => 35,
        Violation::FrequentSwitches5Min { .. } => 30,
        Violation::SwitchesPerMinute { .. } => 40,
        Violation::CopyCharacters { .. } => 45,
        Violation::SingleCopyCharacters { .. } => 50,
        Violation::FrequentCopy1Min { .. } => 40,
        Violation::PasteToAnswerRatio { .. } => 55,
        Violation::RapidSuccession { .. } => 30,
        Violation::SuspiciousContent { .. } => 60,
    }
}

/// Total risk points of a list of broken rules.
pub open spec fn total_weight(vs: Seq<Violation>) -> nat
    decreases vs.len(),
{
    if vs.len() == 0 {
        0
    } else {
        total_weight(vs.drop_last()) + violation_weight(vs.last())
    }
}

/// `v` when `broken` holds, nothing otherwise.
pub open spec fn listed_if(broken: bool, v: Violation) -> Seq<Violation> {
    if broken {
        seq![v]
    } else {
        seq![]
    }
}

/// Pasted text makes up more than the allowed share of the answers, and
/// enough was pasted to judge: pasted / answered > limit / 1000, with some
/// answer text present.
pub open spec fn paste_ratio_exceeded(m: BehaviorMetrics, c: DetectionConfig) -> bool {
    &&& m.total_answer_characters > 0
    &&& m.total_paste_characters * 1000 > c.max_paste_to_answer_per_mille
        * m.total_answer_characters
    &&& m.total_paste_characters >= c.min_paste_characters_for_analysis
}

/// Rule `k` of the sixteen suspicion rules, in the order they are checked:
/// whether metrics `m` break it under configuration `c`, and the violation
/// reported when they do.
pub open spec fn rule(m: BehaviorMetrics, c: DetectionConfig, k: int) -> (bool, Violation) {
    if k == 0 {
        (
            m.visibility_changes > c.max_visibility_changes,
            Violation::VisibilityChanges { count: m.visibility_changes, limit: c.max_visibility_changes },
        )
    } else if k == 1 {
        (
            m.tab_switches > c.max_tab_switches,
            Violation::TabSwitches { count: m.tab_switches, limit: c.max_tab_switches },
        )
    } else if k == 2 {
        (
            m.window_blurs > c.max_window_blurs,
            Violation::WindowBlurs { count: m.window_blurs, limit: c.max_window_blurs },
        )
    } else if k == 3 {
        (
            m.total_away_duration_ms > c.max_away_duration_ms,
            Violation::TotalAwayDuration {
                total_ms: m.total_away_duration_ms,
                limit_ms: c.max_away_duration_ms,
            },
        )
    } else if k == 4 {
        (
            m.max_away_duration_ms > c.max_single_away_duration_ms,
            Violation::SingleAwayDuration {
                max_ms: m.max_away_duration_ms,
                limit_ms: c.max_single_away_duration_ms,
            },
        )
    } else if k == 5 {
        (
            m.copy_events > c.max_copy_events,
            Violation::CopyEvents { count: m.copy_events, limit: c.max_copy_events },
        )
    } else if k == 6 {
        (
            m.paste_events > c.max_paste_events,
            Violation::PasteEvents { count: m.paste_events, limit: c.max_paste_events },
        )
    } else if k == 7 {
        (
            m.frequent_switches_1min > c.max_frequent_switches_1min,
            Violation::FrequentSwitches1Min {
                count: m.frequent_switches_1min,
                limit: c.max_frequent_switches_1min,
            },
        )
    } else if k == 8 {
        (
            m.frequent_switches_5min > c.max_frequent_switches_5min,
            Violation::FrequentSwitches5Min {
                count: m.frequent_switches_5min,
                limit: c.max_frequent_switches_5min,
            },
        )
    } else if k == 9 {
        (
            m.max_switches_per_minute > c.max_switches_per_minute,
            Violation::SwitchesPerMinute {
                count: m.max_switches_per_minute,
                limit: c.max_switches_per_minute,
            },
        )
    } else if k == 10 {
        (
            m.total_copy_characters > c.max_copy_characters,
            Violation::CopyCharacters {
                count: m.total_copy_characters,
                limit: c.max_copy_characters,
            },
        )
    } else if k == 11 {
        (
            m.max_single_copy_characters > c.max_single_copy_characters,
            Violation::SingleCopyCharacters {
                count: m.max_single_copy_characters,
                limit: c.max_single_copy_characters,
            },
        )
    } else if k == 12 {
        (
            m.frequent_copy_1min > c.max_frequent_copy_1min,
            Violation::FrequentCopy1Min {
                count: m.frequent_copy_1min,
                limit: c.max_frequent_copy_1min,
            },
        )
    } else if k == 13 {
        (
            paste_ratio_exceeded(m, c),
            Violation::PasteToAnswerRatio {
                paste_characters: m.total_paste_characters,
                answer_characters: m.total_answer_characters,
                limit_per_mille: c.max_paste_to_answer_per_mille,
            },
        )
    } else if k == 14 {
        (
            m.rapid_succession_events > c.max_rapid_succession_events,
            Violation::RapidSuccession {
                count: m.rapid_succession_events,
                limit: c.max_rapid_succession_events,
            },
        )
    } else {
        (
            m.suspicious_content_matches > 0,
            Violation::SuspiciousContent { matches: m.suspicious_content_matches },
        )
    }
}

/// Number of suspicion rules.
pub const RULE_COUNT: usize = 16;

/// The violations among the first `k` rules, in order.
pub open spec fn violations_upto(m: BehaviorMetrics, c: DetectionConfig, k: int) -> Seq<Violation>
    decreases k,
{
    if k <= 0 {
        seq![]
    } else {
        violations_upto(m, c, k - 1) + listed_if(rule(m, c, k - 1).0, rule(m, c, k - 1).1)
    }
}

/// The rules that metrics `m` break under configuration `c`, in the order
/// the rules are checked.
pub open spec fn violations_of(m: BehaviorMetrics, c: DetectionConfig) -> Seq<Violation> {
    violations_upto(m, c, RULE_COUNT as int)
}

/// Risk points of the metrics before the cap at 100.
pub open spec fn raw_risk_score(m: BehaviorMetrics, c: DetectionConfig) -> nat {
    total_weight(violations_of(m, c))
}

/// A session is suspicious when its risk points reach the threshold or it
/// breaks any rule.
pub open spec fn is_suspicious(m: BehaviorMetrics, c: DetectionConfig) -> bool {
    raw_risk_score(m, c) >= c.risk_score_threshold || violations_of(m, c).len() > 0
}

/// The risk score reported for the metrics: their risk points, at most 100.
pub open spec fn risk_score(m: BehaviorMetrics, c: DetectionConfig) -> nat {
    if raw_risk_score(m, c) > 100 {
        100
    } else {
        raw_risk_score(m, c)
    }
}

pub(crate) proof fn lemma_total_weight_concat(a: Seq<Violation>, b: Seq<Violation>)
    ensures
        total_weight(a + b) == total_weight(a) + total_weight(b),
    decreases b.len(),
{
    if b.len() > 0 {
        lemma_total_weight_concat(a, b.drop_last());
        assert((a + b).drop_last() =~= a + b.drop_last());
    } else {
        assert(a + b =~= a);
    }
}

pub(crate) proof fn lemma_total_weight_when(a: Seq<Violation>, broken: bool, v: Violation)
    ensures
        #[trigger] total_weight(a + listed_if(broken, v)) == total_weight(a) + if broken {
            violation_weight(v)
        } else {
            0
        },
        (a + listed_if(broken, v)).len() == a.len() + if broken { 1int } else { 0int },
{
    lemma_total_weight_concat(a, listed_if(broken, v));
    lemma_total_weight_single(broken, v);
}

pub(crate) proof fn lemma_total_weight_single(broken: bool, v: Violation)
    ensures
        #[trigger] total_weight(listed_if(broken, v)) == if broken {
            violation_weight(v)
        } else {
            0
        },
{
    let w = listed_if(broken, v);
    if broken {
        assert(w.drop_last() =~= Seq::<Violation>::empty());
        assert(total_weight(Seq::<Violation>::empty()) == 0);
    }
}

/// A list of broken rules has risk points exactly when it is not empty.
pub(crate) proof fn lemma_total_weight_positive(vs: Seq<Violation>)
    ensures
        total_weight(vs) > 0 <==> vs.len() > 0,
    decreases vs.len(),
{
    if vs.len() > 0 {
        lemma_total_weight_positive(vs.drop_last());
    }
}

// ---------------------------------------------------------------------------
// Laws of the rules.
// ---------------------------------------------------------------------------

/// `hi` records at least as much of every kind of activity as `lo`, over
/// the same answers.
pub open spec fn at_least_as_active(hi: BehaviorMetrics, lo: BehaviorMetrics) -> bool {
    &&& hi.visibility_changes >= lo.visibility_changes
    &&& hi.tab_switches >= lo.tab_switches
    &&& hi.window_blurs >= lo.window_blurs
    &&& hi.total_away_duration_ms >= lo.total_away_duration_ms
    &&& hi.max_away_duration_ms >= lo.max_away_duration_ms
    &&& hi.copy_events >= lo.copy_events
    &&& hi.paste_events >= lo.paste_events
    &&& hi.frequent_switches_1min >= lo.frequent_switches_1min
    &&& hi.frequent_switches_5min >= lo.frequent_switches_5min
    &&& hi.max_switches_per_minute >= lo.max_switches_per_minute
    &&& hi.total_copy_characters >= lo.total_copy_characters
    &&& hi.max_single_copy_characters >= lo.max_single_copy_characters
    &&& hi.frequent_copy_1min >= lo.frequent_copy_1min
    &&& hi.total_paste_characters >= lo.total_paste_characters
    &&& hi.total_answer_characters == lo.total_answer_characters
    &&& hi.rapid_succession_events >= lo.rapid_succession_events
    &&& hi.suspicious_content_matches >= lo.suspicious_content_matches
}

/// Breaking any rule makes a session suspicious; with a positive
/// threshold, a session is suspicious exactly when it breaks some rule.
pub proof fn lemma_suspicious_iff_rule_broken(m: BehaviorMetrics, c: DetectionConfig)
    ensures
        violations_of(m, c).len() > 0 ==> is_suspicious(m, c),
        c.risk_score_threshold > 0 ==> (is_suspicious(m, c) <==> violations_of(m, c).len() > 0),
        risk_score(m, c) <= 100,
{
    lemma_total_weight_positive(violations_of(m, c));
}

/// More recorded activity never lowers the risk score and never clears a
/// suspicion.
pub proof fn lemma_more_activity_never_lowers_risk(
    lo: BehaviorMetrics,
    hi: BehaviorMetrics,
    c: DetectionConfig,
)
    requires
        at_least_as_active(hi, lo),
    ensures
        raw_risk_score(lo, c) <= raw_risk_score(hi, c),
        risk_score(lo, c) <= risk_score(hi, c),
        is_suspicious(lo, c) ==> is_suspicious(hi, c),
{
    lemma_rules_monotone(lo, hi, c, RULE_COUNT as int);
    lemma_total_weight_positive(violations_of(lo, c));
    lemma_total_weight_positive(violations_of(hi, c));
}

/// Among the first `k` rules, the more active metrics earn at least the
/// risk points of the less active ones.
pub(crate) proof fn lemma_rules_monotone(lo: BehaviorMetrics, hi: BehaviorMetrics, c: DetectionConfig, k: int)
    requires
        at_least_as_active(hi, lo),
    ensures
        total_weight(violations_upto(lo, c, k)) <= total_weight(violations_upto(hi, c, k)),
    decreases k,
{
    if k > 0 {
        lemma_rules_monotone(lo, hi, c, k - 1);
        lemma_total_weight_when(
            violations_upto(lo, c, k - 1),
            rule(lo, c, k - 1).0,
            rule(lo, c, k - 1).1,
        );
        lemma_total_weight_when(
            violations_upto(hi, c, k - 1),
            rule(hi, c, k - 1).0,
            rule(hi, c, k - 1).1,
        );
        assert(paste_ratio_exceeded(lo, c) ==> paste_ratio_exceeded(hi, c));
        assert(rule(lo, c, k - 1).0 ==> rule(hi, c, k - 1).0);
        assert(violation_weight(rule(lo, c, k - 1).1) == violation_weight(rule(hi, c, k - 1).1));
    }
}


/// Position of a violation's rule in the order the rules are checked.
pub open spec fn rule_rank(v: Violation) -> int {
    match v {
        Violation::VisibilityChanges { .. } => 0,
        Violation::TabSwitches { .. } => 1,
        Violation::WindowBlurs { .. } => 2,
        Violation::TotalAwayDuration { .. } => 3,
        Violation::SingleAwayDuration { .. } => 4,
        Violation::CopyEvents { .. } => 5,
        Violation::PasteEvents { .. } => 6,
        Violation::FrequentSwitches1Min { .. } => 7,
        Violation::FrequentSwitches5Min { .. } => 8,
        Violation::SwitchesPerMinute { .. } => 9,
        Violation::CopyCharacters { .. } => 10,
        Violation::SingleCopyCharacters { .. } => 11,
        Violation::FrequentCopy1Min { .. } => 12,
        Violation::PasteToAnswerRatio { .. } => 13,
        Violation::RapidSuccession { .. } => 14,
        Violation::SuspiciousContent { .. } => 15,
    }
}

proof fn lemma_rule_ranks(m: BehaviorMetrics, c: DetectionConfig)
    ensures
        forall|j: int| 0 <= j < RULE_COUNT ==> rule_rank(#[trigger] rule(m, c, j).1) == j,
{
}

/// Every violation among the first `k` rules is reported by its own rule,
/// which is broken; every broken rule among them is reported; and they come
/// in the order of the rules.
proof fn lemma_violations_upto_members(m: BehaviorMetrics, c: DetectionConfig, k: int)
    requires
        0 <= k <= RULE_COUNT,
    ensures
        forall|i: int|
            0 <= i < violations_upto(m, c, k).len() ==> {
                let v = #[trigger] violations_upto(m, c, k)[i];
                &&& 0 <= rule_rank(v) < k
                &&& rule(m, c, rule_rank(v)).0
                &&& v == rule(m, c, rule_rank(v)).1
            },
        forall|j: int|
            0 <= j < k && #[trigger] rule(m, c, j).0 ==> exists|i: int|
                0 <= i < violations_upto(m, c, k).len() && rule_rank(
                    #[trigger] violations_upto(m, c, k)[i],
                ) == j,
        forall|i: int, i2: int|
            0 <= i < i2 < violations_upto(m, c, k).len() ==> rule_rank(
                #[trigger] violations_upto(m, c, k)[i],
            ) < rule_rank(#[trigger] violations_upto(m, c, k)[i2]),
    decreases k,
{
    lemma_rule_ranks(m, c);
    if k > 0 {
        lemma_violations_upto_members(m, c, k - 1);
        let prev = violations_upto(m, c, k - 1);
        let cur = violations_upto(m, c, k);
        let r = rule(m, c, k - 1);
        assert(cur == prev + listed_if(r.0, r.1));
        assert forall|i: int| 0 <= i < prev.len() implies #[trigger] cur[i] == prev[i] by {}
        if r.0 {
            assert(cur[prev.len() as int] == r.1);
            assert(cur.len() == prev.len() + 1);
        } else {
            assert(cur =~= prev);
        }
        assert forall|j: int| 0 <= j < k && #[trigger] rule(m, c, j).0 implies exists|i: int|
            0 <= i < cur.len() && rule_rank(#[trigger] cur[i]) == j by {
            if j < k - 1 {
                let i = choose|i: int| 0 <= i < prev.len() && rule_rank(#[trigger] prev[i]) == j;
                assert(cur[i] == prev[i]);
            } else {
                assert(cur[prev.len() as int] == r.1);
            }
        }
    }
}

/// A violation of the kind of `v` is in `vs` exactly when `broken` holds,
/// and each one that is there is `v` itself.
pub open spec fn reported_exactly_when(vs: Seq<Violation>, v: Violation, broken: bool) -> bool {
    &&& (exists|i: int| 0 <= i < vs.len() && rule_rank(#[trigger] vs[i]) == rule_rank(v)) == broken
    &&& forall|i: int| 0 <= i < vs.len() && rule_rank(#[trigger] vs[i]) == rule_rank(v) ==> vs[i] == v
}

/// Rule `j` is reported exactly when it is broken, as its own violation.
proof fn lemma_rule_reported(m: BehaviorMetrics, c: DetectionConfig, j: int)
    requires
        0 <= j < RULE_COUNT,
    ensures
        reported_exactly_when(violations_of(m, c), rule(m, c, j).1, rule(m, c, j).0),
{
    lemma_violations_upto_members(m, c, RULE_COUNT as int);
    lemma_rule_ranks(m, c);
    let vs = violations_of(m, c);
    let v = rule(m, c, j).1;
    assert(rule_rank(v) == j);
    if exists|i: int| 0 <= i < vs.len() && rule_rank(#[trigger] vs[i]) == rule_rank(v) {
        let i = choose|i: int| 0 <= i < vs.len() && rule_rank(#[trigger] vs[i]) == rule_rank(v);
        assert(rule(m, c, rule_rank(vs[i])).0);
    }
}

/// The rule table: each kind of violation is reported exactly when its rule
/// is broken, with the observed value and the threshold of that rule, and
/// the violations come in the order the rules are checked, each kind at
/// most once.
pub proof fn lemma_rule_table(m: BehaviorMetrics, c: DetectionConfig)
    ensures
        reported_exactly_when(
            violations_of(m, c),
            (Violation::VisibilityChanges { count: m.visibility_changes, limit: c.max_visibility_changes }),
            c.max_visibility_changes < m.visibility_changes,
        ),
        reported_exactly_when(
            violations_of(m, c),
            (Violation::TabSwitches { count: m.tab_switches, limit: c.max_tab_switches }),
            c.max_tab_switches < m.tab_switches,
        ),
        reported_exactly_when(
            violations_of(m, c),
            (Violation::WindowBlurs { count: m.window_blurs, limit: c.max_window_blurs }),
            c.max_window_blurs < m.window_blurs,
        ),
        reported_exactly_when(
            violations_of(m, c),
            (Violation::TotalAwayDuration { total_ms: m.total_away_duration_ms, limit_ms: c.max_away_duration_ms }),
            c.max_away_duration_ms < m.total_away_duration_ms,
        ),
        reported_exactly_when(
            violations_of(m, c),
            (Violation::SingleAwayDuration { max_ms: m.max_away_duration_ms, limit_ms: c.max_single_away_duration_ms }),
            c.max_single_away_duration_ms < m.max_away_duration_ms,
        ),
        reported_exactly_when(
            violations_of(m, c),
            (Violation::CopyEvents { count: m.copy_events, limit: c.max_copy_events }),
            c.max_copy_events < m.copy_events,
        ),
        reported_exactly_when(
            violations_of(m, c),
            (Violation::PasteEvents { count: m.paste_events, limit: c.max_paste_events }),
            c.max_paste_events < m.paste_events,
        ),
        reported_exactly_when(
            violations_of(m, c),
            (Violation::FrequentSwitches1Min { count: m.frequent_switches_1min, limit: c.max_frequent_switches_1min }),
            c.max_frequent_switches_1min < m.frequent_switches_1min,
        ),
        reported_exactly_when(
            violations_of(m, c),
            (Violation::FrequentSwitches5Min { count: m.frequent_switches_5min, limit: c.max_frequent_switches_5min }),
            c.max_frequent_switches_5min < m.frequent_switches_5min,
        ),
        reported_exactly_when(
            violations_of(m, c),
            (Violation::SwitchesPerMinute { count: m.max_switches_per_minute, limit: c.max_switches_per_minute }),
            c.max_switches_per_minute < m.max_switches_per_minute,
        ),
        reported_exactly_when(
            violations_of(m, c),
            (Violation::CopyCharacters { count: m.total_copy_characters, limit: c.max_copy_characters }),
            c.max_copy_characters < m.total_copy_characters,
        ),
        reported_exactly_when(
            violations_of(m, c),
            (Violation::SingleCopyCharacters { count: m.max_single_copy_characters, limit: c.max_single_copy_characters }),
            c.max_single_copy_characters < m.max_single_copy_characters,
        ),
        reported_exactly_when(
            violations_of(m, c),
            (Violation::FrequentCopy1Min { count: m.frequent_copy_1min, limit: c.max_frequent_copy_1min }),
            c.max_frequent_copy_1min < m.frequent_copy_1min,
        ),
        reported_exactly_when(
            violations_of(m, c),
            (Violation::PasteToAnswerRatio { paste_characters: m.total_paste_characters, answer_characters: m.total_answer_characters, limit_per_mille: c.max_paste_to_answer_per_mille }),
            (0 < m.total_answer_characters && c.max_paste_to_answer_per_mille * m.total_answer_characters < m.total_paste_characters * 1000 && c.min_paste_characters_for_analysis <= m.total_paste_characters),
        ),
        reported_exactly_when(
            violations_of(m, c),
            (Violation::RapidSuccession { count: m.rapid_succession_events, limit: c.max_rapid_succession_events }),
            c.max_rapid_succession_events < m.rapid_succession_events,
        ),
        reported_exactly_when(
            violations_of(m, c),
            (Violation::SuspiciousContent { matches: m.suspicious_content_matches }),
            0 < m.suspicious_content_matches,
        ),
        forall|i: int, i2: int|
            0 <= i < i2 < violations_of(m, c).len() ==> rule_rank(
                #[trigger] violations_of(m, c)[i],
            ) < rule_rank(#[trigger] violations_of(m, c)[i2]),
{
    lemma_violations_upto_members(m, c, RULE_COUNT as int);
    lemma_rule_ranks(m, c);
    lemma_rule_reported(m, c, 0);
    lemma_rule_reported(m, c, 1);
    lemma_rule_reported(m, c, 2);
    lemma_rule_reported(m, c, 3);
    lemma_rule_reported(m, c, 4);
    lemma_rule_reported(m, c, 5);
    lemma_rule_reported(m, c, 6);
    lemma_rule_reported(m, c, 7);
    lemma_rule_reported(m, c, 8);
    lemma_rule_reported(m, c, 9);
    lemma_rule_reported(m, c, 10);
    lemma_rule_reported(m, c, 11);
    lemma_rule_reported(m, c, 12);
    lemma_rule_reported(m, c, 13);
    lemma_rule_reported(m, c, 14);
    lemma_rule_reported(m, c, 15);
    assert(rule(m, c, 0) == (c.max_visibility_changes < m.visibility_changes, Violation::VisibilityChanges { count: m.visibility_changes, limit: c.max_visibility_changes }));
    assert(rule(m, c, 1) == (c.max_tab_switches < m.tab_switches, Violation::TabSwitches { count: m.tab_switches, limit: c.max_tab_switches }));
    assert(rule(m, c, 2) == (c.max_window_blurs < m.window_blurs, Violation::WindowBlurs { count: m.window_blurs, limit: c.max_window_blurs }));
    assert(rule(m, c, 3) == (c.max_away_duration_ms < m.total_away_duration_ms, Violation::TotalAwayDuration { total_ms: m.total_away_duration_ms, limit_ms: c.max_away_duration_ms }));
    assert(rule(m, c, 4) == (c.max_single_away_duration_ms < m.max_away_duration_ms, Violation::SingleAwayDuration { max_ms: m.max_away_duration_ms, limit_ms: c.max_single_away_duration_ms }));
    assert(rule(m, c, 5) == (c.max_copy_events < m.copy_events, Violation::CopyEvents { count: m.copy_events, limit: c.max_copy_events }));
    assert(rule(m, c, 6) == (c.max_paste_events < m.paste_events, Violation::PasteEvents { count: m.paste_events, limit: c.max_paste_events }));
    assert(rule(m, c, 7) == (c.max_frequent_switches_1min < m.frequent_switches_1min, Violation::FrequentSwitches1Min { count: m.frequent_switches_1min, limit: c.max_frequent_switches_1min }));
    assert(rule(m, c, 8) == (c.max_frequent_switches_5min < m.frequent_switches_5min, Violation::FrequentSwitches5Min { count: m.frequent_switches_5min, limit: c.max_frequent_switches_5min }));
    assert(rule(m, c, 9) == (c.max_switches_per_minute < m.max_switches_per_minute, Violation::SwitchesPerMinute { count: m.max_switches_per_minute, limit: c.max_switches_per_minute }));
    assert(rule(m, c, 10) == (c.max_copy_characters < m.total_copy_characters, Violation::CopyCharacters { count: m.total_copy_characters, limit: c.max_copy_characters }));
    assert(rule(m, c, 11) == (c.max_single_copy_characters < m.max_single_copy_characters, Violation::SingleCopyCharacters { count: m.max_single_copy_characters, limit: c.max_single_copy_characters }));
    assert(rule(m, c, 12) == (c.max_frequent_copy_1min < m.frequent_copy_1min, Violation::FrequentCopy1Min { count: m.frequent_copy_1min, limit: c.max_frequent_copy_1min }));
    assert(rule(m, c, 13) == ((0 < m.total_answer_characters && c.max_paste_to_answer_per_mille * m.total_answer_characters < m.total_paste_characters * 1000 && c.min_paste_characters_for_analysis <= m.total_paste_characters), Violation::PasteToAnswerRatio { paste_characters: m.total_paste_characters, answer_characters: m.total_answer_characters, limit_per_mille: c.max_paste_to_answer_per_mille }));
    assert(rule(m, c, 14) == (c.max_rapid_succession_events < m.rapid_succession_events, Violation::RapidSuccession { count: m.rapid_succession_events, limit: c.max_rapid_succession_events }));
    assert(rule(m, c, 15) == (0 < m.suspicious_content_matches, Violation::SuspiciousContent { matches: m.suspicious_content_matches }));
}

} // verus!
