use exam_monitor::config::DetectionConfig;
use exam_monitor::detection::BehaviorDetectionService;
use exam_monitor::leaderboard::{join_reasons, merge_suspicion_reasons};
use exam_monitor::metrics::BehaviorMetrics;
use exam_monitor::models::{BehaviorEvent, EventType, ExamSession, QuestionAnswer};
use exam_monitor::rules::Violation;
use exam_monitor::time::Timestamp;

fn at_ms(ms: i64) -> Timestamp {
    Timestamp::new(ms.div_euclid(1000), (ms.rem_euclid(1000) * 1_000_000) as u32).unwrap()
}

fn event(ms: i64, t: EventType, state: Option<&str>, details: Option<&str>) -> BehaviorEvent {
    BehaviorEvent {
        id: None,
        session_id: "s".to_string(),
        event_type: t,
        event_time: at_ms(ms),
        page_x: None,
        page_y: None,
        screen_x: None,
        screen_y: None,
        visibility_state: state.map(|s| s.to_string()),
        duration_ms: None,
        details: details.map(|s| s.to_string()),
    }
}

fn answer(text: Option<&str>) -> QuestionAnswer {
    QuestionAnswer {
        id: None,
        session_id: "s".to_string(),
        question_id: 1,
        answer: text.map(|s| s.to_string()),
        answered_at: None,
    }
}

fn service() -> BehaviorDetectionService {
    BehaviorDetectionService::new(DetectionConfig::default())
}

fn away_and_switch_events() -> Vec<BehaviorEvent> {
    vec![
        event(0, EventType::VisibilityChange, Some("hidden"), None),
        event(5_000, EventType::VisibilityChange, Some("visible"), None),
        event(10_000, EventType::WindowBlur, None, None),
        event(12_500, EventType::WindowFocus, None, None),
        event(20_000, EventType::TabSwitch, None, None),
        event(30_000, EventType::PageFocus, None, None),
        event(40_000, EventType::VisibilityChange, Some("prerender"), None),
        event(50_000, EventType::WindowBlur, None, None),
        event(80_000, EventType::VisibilityChange, Some("visible"), None),
    ]
}

fn clipboard_events() -> Vec<BehaviorEvent> {
    vec![
        event(0, EventType::Copy, None, Some("hello")),
        event(30_000, EventType::Copy, None, Some("这是答案")),
        event(100_000, EventType::Copy, None, None),
        event(101_000, EventType::Paste, None, Some("pasted text!")),
        event(102_000, EventType::Paste, None, Some("题库abc")),
        event(200_000, EventType::Paste, None, None),
    ]
}

fn zero_metrics() -> BehaviorMetrics {
    BehaviorMetrics {
        total_events: 0,
        visibility_changes: 0,
        tab_switches: 0,
        window_blurs: 0,
        copy_events: 0,
        paste_events: 0,
        total_away_duration_ms: 0,
        max_away_duration_ms: 0,
        away_count: 0,
        frequent_switches_1min: 0,
        frequent_switches_5min: 0,
        max_switches_per_minute: 0,
        total_copy_characters: 0,
        max_single_copy_characters: 0,
        frequent_copy_1min: 0,
        total_paste_characters: 0,
        total_answer_characters: 0,
        rapid_succession_events: 0,
        suspicious_content_matches: 0,
    }
}

#[test]
fn default_config_values() {
    let c = DetectionConfig::default();
    assert_eq!(c.max_visibility_changes, 5);
    assert_eq!(c.max_tab_switches, 3);
    assert_eq!(c.max_away_duration_ms, 60_000);
    assert_eq!(c.risk_score_threshold, 50);
    assert_eq!(c.max_paste_to_answer_per_mille, 300);
    assert_eq!(c.rapid_succession_interval_ms, 2000);
    assert_eq!(c.suspicious_keywords.len(), 8);
    assert_eq!(c.suspicious_keywords[0], "答案");
    assert_eq!(c.suspicious_keywords[7], "考试答案");
}

#[test]
fn metrics_of_away_and_switches() {
    let m = service().calculate_metrics(&away_and_switch_events(), &vec![]);
    assert_eq!(m.total_events, 9);
    assert_eq!(m.visibility_changes, 4);
    assert_eq!(m.tab_switches, 1);
    assert_eq!(m.window_blurs, 2);
    assert_eq!(m.away_count, 3);
    assert_eq!(m.total_away_duration_ms, 37_500);
    assert_eq!(m.max_away_duration_ms, 30_000);
    assert_eq!(m.frequent_switches_1min, 3);
    assert_eq!(m.frequent_switches_5min, 2);
    assert_eq!(m.max_switches_per_minute, 5);
    assert_eq!(m.rapid_succession_events, 0);
    assert_eq!(m.copy_events + m.paste_events, 0);
}

#[test]
fn metrics_of_clipboard_use() {
    let answers = vec![answer(Some("answer one")), answer(None), answer(Some("答"))];
    let m = service().calculate_metrics(&clipboard_events(), &answers);
    assert_eq!(m.copy_events, 3);
    assert_eq!(m.total_copy_characters, 17);
    assert_eq!(m.max_single_copy_characters, 12);
    assert_eq!(m.frequent_copy_1min, 1);
    assert_eq!(m.paste_events, 3);
    assert_eq!(m.total_paste_characters, 21);
    assert_eq!(m.total_answer_characters, 13);
    assert_eq!(m.suspicious_content_matches, 2);
    assert_eq!(m.rapid_succession_events, 0);
}

#[test]
fn away_interval_across_a_leap_second() {
    let leap = Timestamp::new(59, 1_500_000_000).unwrap();
    let after = Timestamp::new(60, 500_000_000).unwrap();
    let mut blur = event(0, EventType::WindowBlur, None, None);
    blur.event_time = leap;
    let mut focus = event(0, EventType::WindowFocus, None, None);
    focus.event_time = after;
    let m = service().calculate_metrics(&vec![blur, focus], &vec![]);
    assert_eq!(m.total_away_duration_ms, 1_000);
}

#[test]
fn negative_away_intervals_count_as_zero() {
    let events = vec![
        event(10_000, EventType::WindowBlur, None, None),
        event(4_000, EventType::WindowFocus, None, None),
    ];
    let m = service().calculate_metrics(&events, &vec![]);
    assert_eq!(m.away_count, 1);
    assert_eq!(m.total_away_duration_ms, 0);
    assert_eq!(m.max_away_duration_ms, 0);
}

#[test]
fn empty_session_metrics() {
    let m = service().calculate_metrics(&vec![], &vec![]);
    assert_eq!(m, zero_metrics());
    let (suspicious, score, reasons) = service().evaluate_metrics(&m);
    assert!(!suspicious);
    assert_eq!(score, 0);
    assert!(reasons.is_empty());
}

#[test]
fn switch_frequency_windows() {
    let ts: Vec<Timestamp> = [0, 5_000, 10_000, 20_000, 50_000, 80_000].iter().map(|m| at_ms(*m)).collect();
    assert_eq!(BehaviorDetectionService::calculate_switch_frequency(&ts), (3, 2, 5));
    assert_eq!(BehaviorDetectionService::calculate_switch_frequency(&[]), (0, 0, 0));
    let spread: Vec<Timestamp> = [0, 100_000, 200_000, 299_999, 300_000, 301_000].iter().map(|m| at_ms(*m)).collect();
    // from 0 the scan stops at 300 s; from 100 s all five later switches lie
    // within five minutes; from 299.999 s the next two lie within a second
    assert_eq!(BehaviorDetectionService::calculate_switch_frequency(&spread), (1, 1, 3));
    // 59.999 s counts as 59 whole seconds
    let edge: Vec<Timestamp> = [0, 59_999, 59_999].iter().map(|m| at_ms(*m)).collect();
    assert_eq!(BehaviorDetectionService::calculate_switch_frequency(&edge), (1, 0, 3));
}

#[test]
fn frequent_copy_runs() {
    let copies: Vec<(Timestamp, usize)> = vec![(at_ms(0), 5), (at_ms(30_000), 12), (at_ms(100_000), 0)];
    assert_eq!(BehaviorDetectionService::calculate_frequent_copy(&copies), 1);
    let burst: Vec<(Timestamp, usize)> = (0..4).map(|i| (at_ms(i * 10_000), 1)).collect();
    assert_eq!(BehaviorDetectionService::calculate_frequent_copy(&burst), 3);
    assert_eq!(BehaviorDetectionService::calculate_frequent_copy(&[]), 0);
}

#[test]
fn rapid_succession_runs() {
    let ts: Vec<Timestamp> = [0, 500, 1_000, 1_500, 2_000, 2_500, 10_000].iter().map(|m| at_ms(*m)).collect();
    assert_eq!(BehaviorDetectionService::calculate_rapid_succession(&ts, 2000), 2);
    assert_eq!(BehaviorDetectionService::calculate_rapid_succession(&ts, 500), 0);
    assert_eq!(BehaviorDetectionService::calculate_rapid_succession(&ts[..1], 2000), 0);
}

#[test]
fn away_and_switches_are_judged() {
    let s = service();
    let m = s.calculate_metrics(&away_and_switch_events(), &vec![]);
    let (suspicious, score, reasons) = s.evaluate_metrics(&m);
    assert!(suspicious);
    assert_eq!(score, 100);
    assert_eq!(
        reasons,
        vec![
            Violation::SingleAwayDuration { max_ms: 30_000, limit_ms: 10_000 },
            Violation::FrequentSwitches1Min { count: 3, limit: 2 },
            Violation::SwitchesPerMinute { count: 5, limit: 3 },
        ]
    );
}

#[test]
fn clipboard_use_is_judged() {
    let s = service();
    let answers = vec![answer(Some("answer one")), answer(None), answer(Some("答"))];
    let a = s.analyze_records(&clipboard_events(), &answers);
    assert!(a.is_suspicious);
    assert_eq!(a.risk_score, 100);
    assert_eq!(
        a.reasons,
        vec![
            Violation::CopyEvents { count: 3, limit: 2 },
            Violation::PasteToAnswerRatio { paste_characters: 21, answer_characters: 13, limit_per_mille: 300 },
            Violation::SuspiciousContent { matches: 2 },
        ]
    );
    assert_eq!(a.metrics.total_paste_characters, 21);
}

#[test]
fn single_rule_scores() {
    let s = service();
    let mut m = zero_metrics();
    m.tab_switches = 4;
    assert_eq!(s.evaluate_metrics(&m), (true, 25, vec![Violation::TabSwitches { count: 4, limit: 3 }]));
    let mut m = zero_metrics();
    m.window_blurs = 6;
    // 15 risk points stay below the threshold of 50, yet any broken rule flags the session
    assert_eq!(s.evaluate_metrics(&m), (true, 15, vec![Violation::WindowBlurs { count: 6, limit: 5 }]));
    let mut m = zero_metrics();
    m.tab_switches = 3;
    assert_eq!(s.evaluate_metrics(&m), (false, 0, vec![]));
}

#[test]
fn paste_ratio_rule_needs_enough_paste() {
    let s = service();
    let mut m = zero_metrics();
    m.total_paste_characters = 9;
    m.total_answer_characters = 10;
    assert!(s.evaluate_metrics(&m).2.is_empty());
    m.total_paste_characters = 10;
    assert_eq!(s.evaluate_metrics(&m).1, 55);
    // exactly 30 % is not above 30 %
    m.total_paste_characters = 30;
    m.total_answer_characters = 100;
    assert!(s.evaluate_metrics(&m).2.is_empty());
    m.total_paste_characters = 31;
    assert_eq!(s.evaluate_metrics(&m).2.len(), 1);
    // without answers there is no ratio
    m.total_answer_characters = 0;
    assert!(s.evaluate_metrics(&m).2.is_empty());
}

#[test]
fn all_rules_broken_caps_at_100() {
    let s = service();
    let m = BehaviorMetrics {
        total_events: 100,
        visibility_changes: 6,
        tab_switches: 4,
        window_blurs: 6,
        copy_events: 3,
        paste_events: 4,
        total_away_duration_ms: 60_001,
        max_away_duration_ms: 10_001,
        away_count: 7,
        frequent_switches_1min: 3,
        frequent_switches_5min: 5,
        max_switches_per_minute: 4,
        total_copy_characters: 201,
        max_single_copy_characters: 51,
        frequent_copy_1min: 3,
        total_paste_characters: 100,
        total_answer_characters: 100,
        rapid_succession_events: 6,
        suspicious_content_matches: 1,
    };
    let (suspicious, score, reasons) = s.evaluate_metrics(&m);
    assert!(suspicious);
    assert_eq!(score, 100);
    assert_eq!(reasons.len(), 16);
    assert_eq!(reasons[0], Violation::VisibilityChanges { count: 6, limit: 5 });
    assert_eq!(reasons[15], Violation::SuspiciousContent { matches: 1 });
}

#[test]
fn zero_threshold_flags_every_session() {
    let mut c = DetectionConfig::default();
    c.risk_score_threshold = 0;
    let s = BehaviorDetectionService::new(c);
    assert_eq!(s.evaluate_metrics(&zero_metrics()), (true, 0, vec![]));
}

#[test]
fn more_activity_never_lowers_risk() {
    let s = service();
    let mut lo = zero_metrics();
    lo.copy_events = 3;
    let mut hi = lo;
    hi.paste_events = 9;
    hi.total_copy_characters = 500;
    let (sl, rl, _) = s.evaluate_metrics(&lo);
    let (sh, rh, _) = s.evaluate_metrics(&hi);
    assert!(rl <= rh);
    assert!(!sl || sh);
    assert_eq!((rl, rh), (35, 100));
}

#[test]
fn flagging_after_an_event() {
    let mut session = ExamSession::new("u".to_string(), "t".to_string(), 1);
    assert!(BehaviorDetectionService::should_flag_session(true, &Some(session.clone())));
    assert!(!BehaviorDetectionService::should_flag_session(false, &Some(session.clone())));
    assert!(!BehaviorDetectionService::should_flag_session(true, &None));
    session.is_suspicious = true;
    assert!(!BehaviorDetectionService::should_flag_session(true, &Some(session)));
}

#[test]
fn reasons_are_split_trimmed_and_merged() {
    let stored = vec![
        Some("a; b ;  ; a".to_string()),
        None,
        Some(" c;d; b".to_string()),
        Some(String::new()),
        Some("\u{3000}x\u{00A0}; a".to_string()),
    ];
    assert_eq!(merge_suspicion_reasons(&stored), vec!["a", "b", "c;d", "x"]);
    assert!(merge_suspicion_reasons(&vec![]).is_empty());
}

#[test]
fn away_durations_in_order() {
    let away = BehaviorDetectionService::collect_away_durations(&away_and_switch_events());
    assert_eq!(away, vec![5_000, 2_500, 30_000]);
    // a second hide restarts the open interval
    let restarted = vec![
        event(0, EventType::VisibilityChange, Some("hidden"), None),
        event(1_000, EventType::WindowBlur, None, None),
        event(4_000, EventType::PageFocus, None, None),
        event(5_000, EventType::WindowFocus, None, None),
    ];
    assert_eq!(BehaviorDetectionService::collect_away_durations(&restarted), vec![3_000]);
}

#[test]
fn limits_hold_for_ordinary_sessions() {
    let answers = vec![answer(Some("answer one"))];
    assert!(BehaviorDetectionService::metrics_within_limits(&clipboard_events(), &answers));
    assert!(BehaviorDetectionService::metrics_within_limits(&away_and_switch_events(), &vec![]));
    assert!(BehaviorDetectionService::metrics_within_limits(&vec![], &vec![]));
}

#[test]
fn away_sum_beyond_i64_is_refused() {
    let far = Timestamp::new(8_000_000_000_000, 0).unwrap();
    let mut events = Vec::new();
    for _ in 0..2 {
        let mut blur = event(0, EventType::WindowBlur, None, None);
        blur.event_time = Timestamp::new(-8_000_000_000_000, 0).unwrap();
        let mut focus = event(0, EventType::WindowFocus, None, None);
        focus.event_time = far;
        events.push(blur);
        events.push(focus);
    }
    // each interval lasts 1.6e16 ms; a thousand of them overflow an i64
    let many: Vec<BehaviorEvent> = (0..1_200).flat_map(|_| events.clone()).collect();
    assert!(!BehaviorDetectionService::metrics_within_limits(&many, &vec![]));
    assert!(BehaviorDetectionService::metrics_within_limits(&events, &vec![]));
}

#[test]
fn reasons_are_joined_for_storage() {
    let reasons = vec!["窗口失焦次数过多: 6 次 (阈值: 5)".to_string(), "b".to_string(), "c".to_string()];
    assert_eq!(join_reasons(&reasons), "窗口失焦次数过多: 6 次 (阈值: 5); b; c");
    assert_eq!(join_reasons(&vec!["only".to_string()]), "only");
    assert_eq!(join_reasons(&vec![]), "");
}

#[test]
fn stored_reasons_come_back_on_the_leaderboard() {
    let reasons = vec!["x: 1".to_string(), "y (2)".to_string(), "z".to_string()];
    let stored = vec![Some(join_reasons(&reasons))];
    assert_eq!(merge_suspicion_reasons(&stored), reasons);
}
