use exam_monitor::api::{error_response, validate_report_event, validate_submit_answer, RequestError};
use exam_monitor::models::{
    BehaviorEvent, CreateSessionResponse, EventType, ExamSession, QuestionAnswer, ReportEventRequest,
    ReportEventResponse, SubmitAnswerRequest, User, UserResponse,
};
use exam_monitor::time::Timestamp;

const ALL_TYPES: [EventType; 17] = [
    EventType::VisibilityChange,
    EventType::PageBlur,
    EventType::PageFocus,
    EventType::TabSwitch,
    EventType::WindowBlur,
    EventType::WindowFocus,
    EventType::MouseLeave,
    EventType::MouseEnter,
    EventType::KeyDown,
    EventType::Copy,
    EventType::Paste,
    EventType::Cut,
    EventType::ContextMenu,
    EventType::Print,
    EventType::FullscreenChange,
    EventType::ScreenChange,
    EventType::Custom,
];

fn is_random_uuid(s: &str) -> bool {
    let b = s.as_bytes();
    b.len() == 36
        && b.iter().enumerate().all(|(i, c)| {
            if i == 8 || i == 13 || i == 18 || i == 23 {
                *c == b'-'
            } else {
                c.is_ascii_digit() || (b'a'..=b'f').contains(c)
            }
        })
        && b[14] == b'4'
        && matches!(b[19], b'8' | b'9' | b'a' | b'b')
}

#[test]
fn event_type_names_round_trip() {
    for t in ALL_TYPES {
        assert_eq!(EventType::from_str(t.as_str()), t);
    }
}

#[test]
fn event_type_names_are_snake_case() {
    assert_eq!(EventType::VisibilityChange.as_str(), "visibility_change");
    assert_eq!(EventType::FullscreenChange.as_str(), "fullscreen_change");
    assert_eq!(EventType::KeyDown.as_str(), "key_down");
    assert_eq!(EventType::Custom.as_str(), "custom");
}

#[test]
fn unknown_event_names_become_custom() {
    assert_eq!(EventType::from_str("scroll"), EventType::Custom);
    assert_eq!(EventType::from_str(""), EventType::Custom);
    assert_eq!(EventType::from_str("Copy"), EventType::Custom);
    assert_eq!(EventType::from_str("copy "), EventType::Custom);
    assert_eq!(EventType::from_str("copy"), EventType::Copy);
}

#[test]
fn timestamp_accepts_exactly_chrono_instants() {
    assert!(Timestamp::new(0, 0).is_some());
    assert!(Timestamp::new(1_700_000_000, 999_999_999).is_some());
    assert!(Timestamp::new(-8_334_601_315_200, 0).is_some());
    assert!(Timestamp::new(-8_334_601_315_201, 0).is_none());
    assert!(Timestamp::new(8_210_266_876_799, 0).is_some());
    assert!(Timestamp::new(8_210_266_876_800, 0).is_none());
    // a leap second only at the last second of a minute
    assert!(Timestamp::new(59, 1_500_000_000).is_some());
    assert!(Timestamp::new(58, 1_500_000_000).is_none());
    assert!(Timestamp::new(-1, 1_000_000_000).is_some());
    assert!(Timestamp::new(59, 2_000_000_000).is_none());
    let t = Timestamp::new(42, 7).unwrap();
    assert_eq!((t.secs(), t.subsec_nanos()), (42, 7));
}

#[test]
fn new_user_has_random_id_and_given_name() {
    let a = User::new("alice".to_string());
    let b = User::new("alice".to_string());
    assert_eq!(a.username, "alice");
    assert!(is_random_uuid(&a.id));
    assert!(is_random_uuid(&b.id));
    assert_ne!(a.id, b.id);
    assert!(a.created_at.secs() > 1_600_000_000);
    let r = UserResponse::from_user(a.clone());
    assert_eq!(r.id, a.id);
    assert_eq!(r.username, "alice");
    assert_eq!(r.created_at, a.created_at);
}

#[test]
fn new_session_starts_unflagged() {
    let s = ExamSession::new("u1".to_string(), "Math".to_string(), 20);
    assert!(is_random_uuid(&s.id));
    assert_eq!(s.user_id, "u1");
    assert_eq!(s.exam_title, "Math");
    assert_eq!(s.total_questions, 20);
    assert!(s.end_time.is_none());
    assert!(!s.is_suspicious);
    assert!(s.suspicion_reason.is_none());
    let r = CreateSessionResponse::from_session(s.clone());
    assert_eq!(r.session_id, s.id);
    assert_eq!(r.start_time, s.start_time);
    assert_eq!(r.total_questions, 20);
}

#[test]
fn new_event_has_no_details() {
    let e = BehaviorEvent::new("s1".to_string(), EventType::Paste);
    assert_eq!(e.event_type, EventType::Paste);
    assert_eq!(e.session_id, "s1");
    assert!(e.id.is_none() && e.details.is_none() && e.visibility_state.is_none());
    assert!(e.page_x.is_none() && e.duration_ms.is_none());
    assert!(e.event_time.subsec_nanos() < 1_000_000_000);
}

fn report(event_type: &str, time: Option<Timestamp>) -> ReportEventRequest {
    ReportEventRequest {
        session_id: "s1".to_string(),
        event_type: event_type.to_string(),
        event_time: time,
        page_x: Some(10),
        page_y: Some(20),
        screen_x: None,
        screen_y: Some(5),
        visibility_state: Some("hidden".to_string()),
        duration_ms: Some(1500),
        details: Some("abc".to_string()),
    }
}

#[test]
fn report_becomes_event() {
    let t = Timestamp::new(1000, 5).unwrap();
    let e = BehaviorEvent::from_report(report("tab_switch", Some(t)));
    assert_eq!(e.event_type, EventType::TabSwitch);
    assert_eq!(e.event_time, t);
    assert!(e.id.is_none());
    assert_eq!(e.session_id, "s1");
    assert_eq!((e.page_x, e.page_y, e.screen_x, e.screen_y), (Some(10), Some(20), None, Some(5)));
    assert_eq!(e.visibility_state.as_deref(), Some("hidden"));
    assert_eq!(e.duration_ms, Some(1500));
    assert_eq!(e.details.as_deref(), Some("abc"));

    let odd = BehaviorEvent::from_report(report("scroll", None));
    assert_eq!(odd.event_type, EventType::Custom);
    assert!(odd.event_time.secs() > 1_600_000_000);

    let resp = ReportEventResponse::for_event(77, e, true);
    assert_eq!(resp.event_id, 77);
    assert_eq!(resp.event_type, "tab_switch");
    assert_eq!(resp.event_time, t);
    assert!(resp.is_suspicious);
    let resp2 = ReportEventResponse::for_event(78, odd, false);
    assert_eq!(resp2.event_type, "custom");
}

#[test]
fn submission_keeps_existing_id() {
    let req = SubmitAnswerRequest { session_id: "s1".to_string(), question_id: 3, answer: "42".to_string() };
    let fresh = QuestionAnswer::for_submission(&None, req.clone());
    assert!(fresh.id.is_none());
    assert_eq!(fresh.question_id, 3);
    assert_eq!(fresh.answer.as_deref(), Some("42"));
    assert!(fresh.answered_at.is_some());
    let prev = QuestionAnswer {
        id: Some(9),
        session_id: "s1".to_string(),
        question_id: 3,
        answer: Some("41".to_string()),
        answered_at: None,
    };
    let updated = QuestionAnswer::for_submission(&Some(prev), req);
    assert_eq!(updated.id, Some(9));
    assert_eq!(updated.answer.as_deref(), Some("42"));
    assert_eq!(updated.session_id, "s1");
}

#[test]
fn report_validation() {
    assert_eq!(validate_report_event(&report("copy", None)), Ok(()));
    let mut r = report("copy", None);
    r.session_id = String::new();
    assert_eq!(validate_report_event(&r), Err(RequestError::MissingSessionId));
    r.event_type = String::new();
    assert_eq!(validate_report_event(&r), Err(RequestError::MissingSessionId));
    let mut r2 = report("", None);
    assert_eq!(validate_report_event(&r2), Err(RequestError::MissingEventType));
    r2.event_type = "x".to_string();
    assert_eq!(validate_report_event(&r2), Ok(()));
    assert_eq!(RequestError::MissingSessionId.message(), "session_id is required");
    assert_eq!(RequestError::MissingEventType.message(), "event_type is required");
}

#[test]
fn answer_validation() {
    let ok = SubmitAnswerRequest { session_id: "s".to_string(), question_id: 1, answer: String::new() };
    assert_eq!(validate_submit_answer(&ok), Ok(()));
    let bad = SubmitAnswerRequest { session_id: String::new(), question_id: 1, answer: "a".to_string() };
    assert_eq!(validate_submit_answer(&bad), Err(RequestError::MissingSessionId));
}

#[test]
fn error_body_has_one_entry() {
    let body = error_response("User not found");
    assert_eq!(body.len(), 1);
    assert_eq!(body.get("error").map(|s| s.as_str()), Some("User not found"));
}
