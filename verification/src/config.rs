//! Thresholds of the suspicion rules.

use vstd::prelude::*;
use vstd::string::StringExecFns;

verus! {

/// Thresholds of the suspicion rules: a count or length rule fires when its
/// metric exceeds its threshold.
#[derive(Clone)]
pub struct DetectionConfig {
    pub max_visibility_changes: usize,
    pub max_tab_switches: usize,
    pub max_window_blurs: usize,
    pub max_away_duration_ms: i64,
    pub max_single_away_duration_ms: i64,
    pub max_copy_events: usize,
    pub max_paste_events: usize,
    /// Risk points at which a session counts as suspicious.
    pub risk_score_threshold: u32,
    pub max_switches_per_minute: usize,
    pub max_frequent_switches_1min: usize,
    pub max_frequent_switches_5min: usize,
    pub max_copy_characters: usize,
    pub max_single_copy_characters: usize,
    pub max_frequent_copy_1min: usize,
    /// Largest share of pasted characters among answer characters, in
    /// thousandths.
    pub max_paste_to_answer_per_mille: usize,
    pub max_rapid_succession_events: usize,
    pub rapid_succession_interval_ms: i64,
    /// Phrases whose presence in copied or pasted text counts as a hit.
    pub suspicious_keywords: Vec<String>,
    pub min_paste_characters_for_analysis: usize,
}

impl Default for DetectionConfig {
    fn default() -> (c: DetectionConfig)
        ensures
            c.max_visibility_changes == 5,
            c.max_tab_switches == 3,
            c.max_window_blurs == 5,
            c.max_away_duration_ms == 60_000,
            c.max_single_away_duration_ms == 10_000,
            c.max_copy_events == 2,
            c.max_paste_events == 3,
            c.risk_score_threshold == 50,
            c.max_switches_per_minute == 3,
            c.max_frequent_switches_1min == 2,
            c.max_frequent_switches_5min == 4,
            c.max_copy_characters == 200,
            c.max_single_copy_characters == 50,
            c.max_frequent_copy_1min == 2,
            c.max_paste_to_answer_per_mille == 300,
            c.max_rapid_succession_events == 5,
            c.rapid_succession_interval_ms == 2000,
            c.suspicious_keywords@.len() == 8,
            c.suspicious_keywords@[0]@ == "答案"@,
            c.suspicious_keywords@[1]@ == "解析"@,
            c.suspicious_keywords@[2]@ == "参考答案"@,
            c.suspicious_keywords@[3]@ == "题库"@,
            c.suspicious_keywords@[4]@ == "作弊"@,
            c.suspicious_keywords@[5]@ == "搜题"@,
            c.suspicious_keywords@[6]@ == "答案大全"@,
            c.suspicious_keywords@[7]@ == "考试答案"@,
            c.min_paste_characters_for_analysis == 10,
    {
        let mut keywords: Vec<String> = Vec::new();
        keywords.push(String::from_str("答案"));
        keywords.push(String::from_str("解析"));
        keywords.push(String::from_str("参考答案"));
        keywords.push(String::from_str("题库"));
        keywords.push(String::from_str("作弊"));
        keywords.push(String::from_str("搜题"));
        keywords.push(String::from_str("答案大全"));
        keywords.push(String::from_str("考试答案"));
        DetectionConfig {
            max_visibility_changes: 5,
            max_tab_switches: 3,
            max_window_blurs: 5,
            max_away_duration_ms: 60_000,
            max_single_away_duration_ms: 10_000,
            max_copy_events: 2,
            max_paste_events: 3,
            risk_score_threshold: 50,
            max_switches_per_minute: 3,
            max_frequent_switches_1min: 2,
            max_frequent_switches_5min: 4,
            max_copy_characters: 200,
            max_single_copy_characters: 50,
            max_frequent_copy_1min: 2,
            max_paste_to_answer_per_mille: 300,
            max_rapid_succession_events: 5,
            rapid_succession_interval_ms: 2000,
            suspicious_keywords: keywords,
            min_paste_characters_for_analysis: 10,
        }
    }
}

} // verus!
