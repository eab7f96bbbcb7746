//! The records the service stores and exchanges: users, exam sessions,
//! behaviour events, answers, and the request and response bodies built
//! from them.

use crate::text::text_eq;
use crate::time::{current_time, Timestamp, NANOS_PER_SEC};
use uuid::Uuid;
use vstd::prelude::*;
use vstd::string::StringExecFns;

verus! {

/// `c` is one of `0`-`9` or `a`-`f`.
pub open spec fn is_lower_hex_digit(c: char) -> bool {
    (48 <= c as u32 && c as u32 <= 57) || (97 <= c as u32 && c as u32 <= 102)
}

/// `s` is the hyphenated lower-case text of a random (version 4, RFC 9562
/// variant) UUID: 8-4-4-4-12 hex digits, version digit `4`, variant digit
/// one of `8`, `9`, `a`, `b`.
pub open spec fn is_random_uuid_text(s: Seq<char>) -> bool {
    &&& s.len() == 36
    &&& forall|i: int|
        0 <= i < 36 ==> if i == 8 || i == 13 || i == 18 || i == 23 {
            #[trigger] s[i] == '-'
        } else {
            is_lower_hex_digit(s[i])
        }
    &&& s[14] == '4'
    &&& (s[19] == '8' || s[19] == '9' || s[19] == 'a' || s[19] == 'b')
}

/// Wraps uuid's `Uuid::new_v4` followed by its `to_string`: a fresh random
/// UUID in hyphenated lower-case form. Which one comes out depends on the
/// operating system's random source and is left open.
#[verifier::external_body]
pub(crate) fn new_random_id() -> (id: String)
    ensures
        is_random_uuid_text(id@),
{
    Uuid::new_v4().to_string()
}

/// A person who takes exams.
#[derive(Debug, Clone)]
pub struct User {
    pub id: String,
    pub username: String,
    pub created_at: Timestamp,
}

impl User {
    /// A new user with a fresh random id, created now.
    pub fn new(username: String) -> (u: User)
        ensures
            u.username@ == username@,
            is_random_uuid_text(u.id@),
            u.created_at@.0 >= 0,
            u.created_at@.1 < NANOS_PER_SEC,
    {
        User { id: new_random_id(), username, created_at: current_time() }
    }
}

/// One sitting of one exam by one user.
#[derive(Debug, Clone)]
pub struct ExamSession {
    pub id: String,
    pub user_id: String,
    pub exam_title: String,
    pub start_time: Timestamp,
    pub end_time: Option<Timestamp>,
    pub is_suspicious: bool,
    pub suspicion_reason: Option<String>,
    pub total_questions: i32,
}

impl ExamSession {
    /// A session that starts now, has not ended and has not been flagged.
    pub fn new(user_id: String, exam_title: String, total_questions: i32) -> (s: ExamSession)
        ensures
            is_random_uuid_text(s.id@),
            s.user_id@ == user_id@,
            s.exam_title@ == exam_title@,
            s.start_time@.0 >= 0,
            s.start_time@.1 < NANOS_PER_SEC,
            s.end_time is None,
            !s.is_suspicious,
            s.suspicion_reason is None,
            s.total_questions == total_questions,
    {
        ExamSession {
            id: new_random_id(),
            user_id,
            exam_title,
            start_time: current_time(),
            end_time: None,
            is_suspicious: false,
            suspicion_reason: None,
            total_questions,
        }
    }
}

/// The kinds of browser activity that the exam page reports.
#[derive(Debug, Clone, Copy, PartialEq, Eq, Structural)]
pub enum EventType {
    VisibilityChange,
    PageBlur,
    PageFocus,
    TabSwitch,
    WindowBlur,
    WindowFocus,
    MouseLeave,
    MouseEnter,
    KeyDown,
    Copy,
    Paste,
    Cut,
    ContextMenu,
    Print,
    FullscreenChange,
    ScreenChange,
    Custom,
}

/// The snake_case name under which an event type is stored and reported.
pub open spec fn event_type_name(t: EventType) -> Seq<char> {
    match t {
        EventType::VisibilityChange => "visibility_change"@,
        EventType::PageBlur => "page_blur"@,
        EventType::PageFocus => "page_focus"@,
        EventType::TabSwitch => "tab_switch"@,
        EventType::WindowBlur => "window_blur"@,
        EventType::WindowFocus => "window_focus"@,
        EventType::MouseLeave => "mouse_leave"@,
        EventType::MouseEnter => "mouse_enter"@,
        EventType::KeyDown => "key_down"@,
        EventType::Copy => "copy"@,
        EventType::Paste => "paste"@,
        EventType::Cut => "cut"@,
        EventType::ContextMenu => "context_menu"@,
        EventType::Print => "print"@,
        EventType::FullscreenChange => "fullscreen_change"@,
        EventType::ScreenChange => "screen_change"@,
        EventType::Custom => "custom"@,
    }
}

/// The event type a name stands for: the type whose name it is, and
/// `Custom` for every other text.
pub open spec fn event_type_named(s: Seq<char>) -> EventType {
    if s == "visibility_change"@ {
        EventType::VisibilityChange
    } else if s == "page_blur"@ {
        EventType::PageBlur
    } else if s == "page_focus"@ {
        EventType::PageFocus
    } else if s == "tab_switch"@ {
        EventType::TabSwitch
    } else if s == "window_blur"@ {
        EventType::WindowBlur
    } else if s == "window_focus"@ {
        EventType::WindowFocus
    } else if s == "mouse_leave"@ {
        EventType::MouseLeave
    } else if s == "mouse_enter"@ {
        EventType::MouseEnter
    } else if s == "key_down"@ {
        EventType::KeyDown
    } else if s == "copy"@ {
        EventType::Copy
    } else if s == "paste"@ {
        EventType::Paste
    } else if s == "cut"@ {
        EventType::Cut
    } else if s == "context_menu"@ {
        EventType::ContextMenu
    } else if s == "print"@ {
        EventType::Print
    } else if s == "fullscreen_change"@ {
        EventType::FullscreenChange
    } else if s == "screen_change"@ {
        EventType::ScreenChange
    } else {
        EventType::Custom
    }
}

impl EventType {
    /// The stored name of this event type.
    pub fn as_str(&self) -> (s: &'static str)
        ensures
            s@ == event_type_name(*self),
    {
        match self {
            EventType::VisibilityChange => "visibility_change",
            EventType::PageBlur => "page_blur",
            EventType::PageFocus => "page_focus",
            EventType::TabSwitch => "tab_switch",
            EventType::WindowBlur => "window_blur",
            EventType::WindowFocus => "window_focus",
            EventType::MouseLeave => "mouse_leave",
            EventType::MouseEnter => "mouse_enter",
            EventType::KeyDown => "key_down",
            EventType::Copy => "copy",
            EventType::Paste => "paste",
            EventType::Cut => "cut",
            EventType::ContextMenu => "context_menu",
            EventType::Print => "print",
            EventType::FullscreenChange => "fullscreen_change",
            EventType::ScreenChange => "screen_change",
            EventType::Custom => "custom",
        }
    }

    /// The event type that a stored or reported name stands for; names that
    /// are not known become `Custom`.
    pub fn from_str(s: &str) -> (t: EventType)
        ensures
            t == event_type_named(s@),
    {
        if text_eq(s, "visibility_change") {
            EventType::VisibilityChange
        } else if text_eq(s, "page_blur") {
            EventType::PageBlur
        } else if text_eq(s, "page_focus") {
            EventType::PageFocus
        } else if text_eq(s, "tab_switch") {
            EventType::TabSwitch
        } else if text_eq(s, "window_blur") {
            EventType::WindowBlur
        } else if text_eq(s, "window_focus") {
            EventType::WindowFocus
        } else if text_eq(s, "mouse_leave") {
            EventType::MouseLeave
        } else if text_eq(s, "mouse_enter") {
            EventType::MouseEnter
        } else if text_eq(s, "key_down") {
            EventType::KeyDown
        } else if text_eq(s, "copy") {
            EventType::Copy
        } else if text_eq(s, "paste") {
            EventType::Paste
        } else if text_eq(s, "cut") {
            EventType::Cut
        } else if text_eq(s, "context_menu") {
            EventType::ContextMenu
        } else if text_eq(s, "print") {
            EventType::Print
        } else if text_eq(s, "fullscreen_change") {
            EventType::FullscreenChange
        } else if text_eq(s, "screen_change") {
            EventType::ScreenChange
        } else {
            EventType::Custom
        }
    }
}

/// One reported browser event of one session.
#[derive(Debug, Clone)]
pub struct BehaviorEvent {
    pub id: Option<i64>,
    pub session_id: String,
    pub event_type: EventType,
    pub event_time: Timestamp,
    pub page_x: Option<i32>,
    pub page_y: Option<i32>,
    pub screen_x: Option<i32>,
    pub screen_y: Option<i32>,
    pub visibility_state: Option<String>,
    pub duration_ms: Option<i64>,
    pub details: Option<String>,
}

impl BehaviorEvent {
    /// An event of the given type, happening now, with no further detail.
    pub fn new(session_id: String, event_type: EventType) -> (e: BehaviorEvent)
        ensures
            e.id is None,
            e.session_id@ == session_id@,
            e.event_type == event_type,
            e.event_time@.0 >= 0,
            e.event_time@.1 < NANOS_PER_SEC,
            e.page_x is None,
            e.page_y is None,
            e.screen_x is None,
            e.screen_y is None,
            e.visibility_state is None,
            e.duration_ms is None,
            e.details is None,
    {
        BehaviorEvent {
            id: None,
            session_id,
            event_type,
            event_time: current_time(),
            page_x: None,
            page_y: None,
            screen_x: None,
            screen_y: None,
            visibility_state: None,
            duration_ms: None,
            details: None,
        }
    }

    /// The event that a report describes: its type read from the reported
    /// name, its instant as reported or, when none was reported, now; the
    /// remaining fields as reported. It has no storage id yet.
    pub fn from_report(req: ReportEventRequest) -> (e: BehaviorEvent)
        ensures
            e.id is None,
            e.session_id@ == req.session_id@,
            e.event_type == event_type_named(req.event_type@),
            req.event_time matches Some(t) ==> e.event_time == t,
            req.event_time is None ==> e.event_time@.0 >= 0 && e.event_time@.1 < NANOS_PER_SEC,
            e.page_x == req.page_x,
            e.page_y == req.page_y,
            e.screen_x == req.screen_x,
            e.screen_y == req.screen_y,
            e.visibility_state == req.visibility_state,
            e.duration_ms == req.duration_ms,
            e.details == req.details,
    {
        let event_type = EventType::from_str(req.event_type.as_str());
        let event_time = match req.event_time {
            Some(t) => t,
            None => current_time(),
        };
        BehaviorEvent {
            id: None,
            session_id: req.session_id,
            event_type,
            event_time,
            page_x: req.page_x,
            page_y: req.page_y,
            screen_x: req.screen_x,
            screen_y: req.screen_y,
            visibility_state: req.visibility_state,
            duration_ms: req.duration_ms,
            details: req.details,
        }
    }
}

/// The answer given in a session to one question.
#[derive(Debug, Clone)]
pub struct QuestionAnswer {
    pub id: Option<i64>,
    pub session_id: String,
    pub question_id: i32,
    pub answer: Option<String>,
    pub answered_at: Option<Timestamp>,
}

impl QuestionAnswer {
    /// The answer record that a submission stores: it keeps the storage id
    /// of the answer already given to the same question, if any, carries the
    /// submitted text and is stamped with the current instant.
    pub fn for_submission(existing: &Option<QuestionAnswer>, req: SubmitAnswerRequest) -> (a:
        QuestionAnswer)
        ensures
            a.id == (match existing {
                Some(prev) => prev.id,
                None => None,
            }),
            a.session_id@ == req.session_id@,
            a.question_id == req.question_id,
            a.answer matches Some(text) && text@ == req.answer@,
            a.answered_at matches Some(t) && t@.0 >= 0 && t@.1 < NANOS_PER_SEC,
    {
        let id = match existing {
            Some(prev) => prev.id,
            None => None,
        };
        QuestionAnswer {
            id,
            session_id: req.session_id,
            question_id: req.question_id,
            answer: Some(req.answer),
            answered_at: Some(current_time()),
        }
    }
}

#[derive(Debug, Clone)]
pub struct CreateSessionRequest {
    pub user_id: String,
    pub exam_title: String,
    pub total_questions: i32,
}

#[derive(Debug, Clone)]
pub struct CreateSessionResponse {
    pub session_id: String,
    pub user_id: String,
    pub exam_title: String,
    pub start_time: Timestamp,
    pub total_questions: i32,
}

impl CreateSessionResponse {
    /// The reply to a session creation: the new session's fields.
    pub fn from_session(session: ExamSession) -> (r: CreateSessionResponse)
        ensures
            r.session_id@ == session.id@,
            r.user_id@ == session.user_id@,
            r.exam_title@ == session.exam_title@,
            r.start_time == session.start_time,
            r.total_questions == session.total_questions,
    {
        CreateSessionResponse {
            session_id: session.id,
            user_id: session.user_id,
            exam_title: session.exam_title,
            start_time: session.start_time,
            total_questions: session.total_questions,
        }
    }
}

#[derive(Debug, Clone)]
pub struct ReportEventRequest {
    pub session_id: String,
    pub event_type: String,
    pub event_time: Option<Timestamp>,
    pub page_x: Option<i32>,
    pub page_y: Option<i32>,
    pub screen_x: Option<i32>,
    pub screen_y: Option<i32>,
    pub visibility_state: Option<String>,
    pub duration_ms: Option<i64>,
    pub details: Option<String>,
}

#[derive(Debug, Clone)]
pub struct ReportEventResponse {
    pub event_id: i64,
    pub session_id: String,
    pub event_type: String,
    pub event_time: Timestamp,
    pub is_suspicious: bool,
}

impl ReportEventResponse {
    /// The reply to an event report: the stored event's id, session, type
    /// name and instant, and whether the session now looks suspicious.
    pub fn for_event(event_id: i64, event: BehaviorEvent, is_suspicious: bool) -> (r:
        ReportEventResponse)
        ensures
            r.event_id == event_id,
            r.session_id@ == event.session_id@,
            r.event_type@ == event_type_name(event.event_type),
            r.event_time == event.event_time,
            r.is_suspicious == is_suspicious,
    {
        ReportEventResponse {
            event_id,
            session_id: event.session_id,
            event_type: String::from_str(event.event_type.as_str()),
            event_time: event.event_time,
            is_suspicious,
        }
    }
}

#[derive(Debug, Clone)]
pub struct SubmitAnswerRequest {
    pub session_id: String,
    pub question_id: i32,
    pub answer: String,
}

#[derive(Debug, Clone)]
pub struct EndSessionRequest {
    pub session_id: String,
}

#[derive(Debug, Clone)]
pub struct CreateUserRequest {
    pub username: String,
}

#[derive(Debug, Clone)]
pub struct UserResponse {
    pub id: String,
    pub username: String,
    pub created_at: Timestamp,
}

impl UserResponse {
    /// The public view of a user.
    pub fn from_user(user: User) -> (r: UserResponse)
        ensures
            r.id@ == user.id@,
            r.username@ == user.username@,
            r.created_at == user.created_at,
    {
        UserResponse { id: user.id, username: user.username, created_at: user.created_at }
    }
}

/// Storing an event type under its name and reading the name back gives the
/// same event type.
pub proof fn lemma_event_type_name_round_trip(t: EventType)
    ensures
        event_type_named(event_type_name(t)) == t,
{
    reveal_strlit("visibility_change");
    reveal_strlit("page_blur");
    reveal_strlit("page_focus");
    reveal_strlit("tab_switch");
    reveal_strlit("window_blur");
    reveal_strlit("window_focus");
    reveal_strlit("mouse_leave");
    reveal_strlit("mouse_enter");
    reveal_strlit("key_down");
    reveal_strlit("copy");
    reveal_strlit("paste");
    reveal_strlit("cut");
    reveal_strlit("context_menu");
    reveal_strlit("print");
    reveal_strlit("fullscreen_change");
    reveal_strlit("screen_change");
    reveal_strlit("custom");
    match t {
        EventType::VisibilityChange => {
        },
        EventType::PageBlur => {
            assert("page_blur"@.len() != "visibility_change"@.len());
        },
        EventType::PageFocus => {
            assert("page_focus"@.len() != "visibility_change"@.len());
            assert("page_focus"@.len() != "page_blur"@.len());
        },
        EventType::TabSwitch => {
            assert("tab_switch"@.len() != "visibility_change"@.len());
            assert("tab_switch"@.len() != "page_blur"@.len());
            assert("tab_switch"@[0] != "page_focus"@[0]);
        },
        EventType::WindowBlur => {
            assert("window_blur"@.len() != "visibility_change"@.len());
            assert("window_blur"@.len() != "page_blur"@.len());
            assert("window_blur"@.len() != "page_focus"@.len());
            assert("window_blur"@.len() != "tab_switch"@.len());
        },
        EventType::WindowFocus => {
            assert("window_focus"@.len() != "visibility_change"@.len());
            assert("window_focus"@.len() != "page_blur"@.len());
            assert("window_focus"@.len() != "page_focus"@.len());
            assert("window_focus"@.len() != "tab_switch"@.len());
            assert("window_focus"@.len() != "window_blur"@.len());
        },
        EventType::MouseLeave => {
            assert("mouse_leave"@.len() != "visibility_change"@.len());
            assert("mouse_leave"@.len() != "page_blur"@.len());
            assert("mouse_leave"@.len() != "page_focus"@.len());
            assert("mouse_leave"@.len() != "tab_switch"@.len());
            assert("mouse_leave"@[0] != "window_blur"@[0]);
            assert("mouse_leave"@.len() != "window_focus"@.len());
        },
        EventType::MouseEnter => {
            assert("mouse_enter"@.len() != "visibility_change"@.len());
            assert("mouse_enter"@.len() != "page_blur"@.len());
            assert("mouse_enter"@.len() != "page_focus"@.len());
            assert("mouse_enter"@.len() != "tab_switch"@.len());
            assert("mouse_enter"@[0] != "window_blur"@[0]);
            assert("mouse_enter"@.len() != "window_focus"@.len());
            assert("mouse_enter"@[6] != "mouse_leave"@[6]);
        },
        EventType::KeyDown => {
            assert("key_down"@.len() != "visibility_change"@.len());
            assert("key_down"@.len() != "page_blur"@.len());
            assert("key_down"@.len() != "page_focus"@.len());
            assert("key_down"@.len() != "tab_switch"@.len());
            assert("key_down"@.len() != "window_blur"@.len());
            assert("key_down"@.len() != "window_focus"@.len());
            assert("key_down"@.len() != "mouse_leave"@.len());
            assert("key_down"@.len() != "mouse_enter"@.len());
        },
        EventType::Copy => {
            assert("copy"@.len() != "visibility_change"@.len());
            assert("copy"@.len() != "page_blur"@.len());
            assert("copy"@.len() != "page_focus"@.len());
            assert("copy"@.len() != "tab_switch"@.len());
            assert("copy"@.len() != "window_blur"@.len());
            assert("copy"@.len() != "window_focus"@.len());
            assert("copy"@.len() != "mouse_leave"@.len());
            assert("copy"@.len() != "mouse_enter"@.len());
            assert("copy"@.len() != "key_down"@.len());
        },
        EventType::Paste => {
            assert("paste"@.len() != "visibility_change"@.len());
            assert("paste"@.len() != "page_blur"@.len());
            assert("paste"@.len() != "page_focus"@.len());
            assert("paste"@.len() != "tab_switch"@.len());
            assert("paste"@.len() != "window_blur"@.len());
            assert("paste"@.len() != "window_focus"@.len());
            assert("paste"@.len() != "mouse_leave"@.len());
            assert("paste"@.len() != "mouse_enter"@.len());
            assert("paste"@.len() != "key_down"@.len());
            assert("paste"@.len() != "copy"@.len());
        },
        EventType::Cut => {
            assert("cut"@.len() != "visibility_change"@.len());
            assert("cut"@.len() != "page_blur"@.len());
            assert("cut"@.len() != "page_focus"@.len());
            assert("cut"@.len() != "tab_switch"@.len());
            assert("cut"@.len() != "window_blur"@.len());
            assert("cut"@.len() != "window_focus"@.len());
            assert("cut"@.len() != "mouse_leave"@.len());
            assert("cut"@.len() != "mouse_enter"@.len());
            assert("cut"@.len() != "key_down"@.len());
            assert("cut"@.len() != "copy"@.len());
            assert("cut"@.len() != "paste"@.len());
        },
        EventType::ContextMenu => {
            assert("context_menu"@.len() != "visibility_change"@.len());
            assert("context_menu"@.len() != "page_blur"@.len());
            assert("context_menu"@.len() != "page_focus"@.len());
            assert("context_menu"@.len() != "tab_switch"@.len());
            assert("context_menu"@.len() != "window_blur"@.len());
            assert("context_menu"@[0] != "window_focus"@[0]);
            assert("context_menu"@.len() != "mouse_leave"@.len());
            assert("context_menu"@.len() != "mouse_enter"@.len());
            assert("context_menu"@.len() != "key_down"@.len());
            assert("context_menu"@.len() != "copy"@.len());
            assert("context_menu"@.len() != "paste"@.len());
            assert("context_menu"@.len() != "cut"@.len());
        },
        EventType::Print => {
            assert("print"@.len() != "visibility_change"@.len());
            assert("print"@.len() != "page_blur"@.len());
            assert("print"@.len() != "page_focus"@.len());
            assert("print"@.len() != "tab_switch"@.len());
            assert("print"@.len() != "window_blur"@.len());
            assert("print"@.len() != "window_focus"@.len());
            assert("print"@.len() != "mouse_leave"@.len());
            assert("print"@.len() != "mouse_enter"@.len());
            assert("print"@.len() != "key_down"@.len());
            assert("print"@.len() != "copy"@.len());
            assert("print"@[1] != "paste"@[1]);
            assert("print"@.len() != "cut"@.len());
            assert("print"@.len() != "context_menu"@.len());
        },
        EventType::FullscreenChange => {
            assert("fullscreen_change"@[0] != "visibility_change"@[0]);
            assert("fullscreen_change"@.len() != "page_blur"@.len());
            assert("fullscreen_change"@.len() != "page_focus"@.len());
            assert("fullscreen_change"@.len() != "tab_switch"@.len());
            assert("fullscreen_change"@.len() != "window_blur"@.len());
            assert("fullscreen_change"@.len() != "window_focus"@.len());
            assert("fullscreen_change"@.len() != "mouse_leave"@.len());
            assert("fullscreen_change"@.len() != "mouse_enter"@.len());
            assert("fullscreen_change"@.len() != "key_down"@.len());
            assert("fullscreen_change"@.len() != "copy"@.len());
            assert("fullscreen_change"@.len() != "paste"@.len());
            assert("fullscreen_change"@.len() != "cut"@.len());
            assert("fullscreen_change"@.len() != "context_menu"@.len());
            assert("fullscreen_change"@.len() != "print"@.len());
        },
        EventType::ScreenChange => {
            assert("screen_change"@.len() != "visibility_change"@.len());
            assert("screen_change"@.len() != "page_blur"@.len());
            assert("screen_change"@.len() != "page_focus"@.len());
            assert("screen_change"@.len() != "tab_switch"@.len());
            assert("screen_change"@.len() != "window_blur"@.len());
            assert("screen_change"@.len() != "window_focus"@.len());
            assert("screen_change"@.len() != "mouse_leave"@.len());
            assert("screen_change"@.len() != "mouse_enter"@.len());
            assert("screen_change"@.len() != "key_down"@.len());
            assert("screen_change"@.len() != "copy"@.len());
            assert("screen_change"@.len() != "paste"@.len());
            assert("screen_change"@.len() != "cut"@.len());
            assert("screen_change"@.len() != "context_menu"@.len());
            assert("screen_change"@.len() != "print"@.len());
            assert("screen_change"@.len() != "fullscreen_change"@.len());
        },
        EventType::Custom => {
            assert("custom"@.len() != "visibility_change"@.len());
            assert("custom"@.len() != "page_blur"@.len());
            assert("custom"@.len() != "page_focus"@.len());
            assert("custom"@.len() != "tab_switch"@.len());
            assert("custom"@.len() != "window_blur"@.len());
            assert("custom"@.len() != "window_focus"@.len());
            assert("custom"@.len() != "mouse_leave"@.len());
            assert("custom"@.len() != "mouse_enter"@.len());
            assert("custom"@.len() != "key_down"@.len());
            assert("custom"@.len() != "copy"@.len());
            assert("custom"@.len() != "paste"@.len());
            assert("custom"@.len() != "cut"@.len());
            assert("custom"@.len() != "context_menu"@.len());
            assert("custom"@.len() != "print"@.len());
            assert("custom"@.len() != "fullscreen_change"@.len());
            assert("custom"@.len() != "screen_change"@.len());
        },
    }
}

/// Reading a name gives either the event type of that very name, or
/// `Custom` for a name that belongs to no event type.
pub proof fn lemma_event_type_named_total(s: Seq<char>)
    ensures
        event_type_name(event_type_named(s)) == s || event_type_named(s) == EventType::Custom,
{
}


/// Each event type is stored and reported under its fixed snake_case wire
/// name, and reading a wire name gives the event type it names.
pub proof fn lemma_event_type_wire_names()
    ensures
        event_type_name(EventType::VisibilityChange) == "visibility_change"@,
        event_type_name(EventType::PageBlur) == "page_blur"@,
        event_type_name(EventType::PageFocus) == "page_focus"@,
        event_type_name(EventType::TabSwitch) == "tab_switch"@,
        event_type_name(EventType::WindowBlur) == "window_blur"@,
        event_type_name(EventType::WindowFocus) == "window_focus"@,
        event_type_name(EventType::MouseLeave) == "mouse_leave"@,
        event_type_name(EventType::MouseEnter) == "mouse_enter"@,
        event_type_name(EventType::KeyDown) == "key_down"@,
        event_type_name(EventType::Copy) == "copy"@,
        event_type_name(EventType::Paste) == "paste"@,
        event_type_name(EventType::Cut) == "cut"@,
        event_type_name(EventType::ContextMenu) == "context_menu"@,
        event_type_name(EventType::Print) == "print"@,
        event_type_name(EventType::FullscreenChange) == "fullscreen_change"@,
        event_type_name(EventType::ScreenChange) == "screen_change"@,
        event_type_name(EventType::Custom) == "custom"@,
        event_type_named("visibility_change"@) == EventType::VisibilityChange,
        event_type_named("page_blur"@) == EventType::PageBlur,
        event_type_named("page_focus"@) == EventType::PageFocus,
        event_type_named("tab_switch"@) == EventType::TabSwitch,
        event_type_named("window_blur"@) == EventType::WindowBlur,
        event_type_named("window_focus"@) == EventType::WindowFocus,
        event_type_named("mouse_leave"@) == EventType::MouseLeave,
        event_type_named("mouse_enter"@) == EventType::MouseEnter,
        event_type_named("key_down"@) == EventType::KeyDown,
        event_type_named("copy"@) == EventType::Copy,
        event_type_named("paste"@) == EventType::Paste,
        event_type_named("cut"@) == EventType::Cut,
        event_type_named("context_menu"@) == EventType::ContextMenu,
        event_type_named("print"@) == EventType::Print,
        event_type_named("fullscreen_change"@) == EventType::FullscreenChange,
        event_type_named("screen_change"@) == EventType::ScreenChange,
        event_type_named("custom"@) == EventType::Custom,
{
    lemma_event_type_name_round_trip(EventType::VisibilityChange);
    lemma_event_type_name_round_trip(EventType::PageBlur);
    lemma_event_type_name_round_trip(EventType::PageFocus);
    lemma_event_type_name_round_trip(EventType::TabSwitch);
    lemma_event_type_name_round_trip(EventType::WindowBlur);
    lemma_event_type_name_round_trip(EventType::WindowFocus);
    lemma_event_type_name_round_trip(EventType::MouseLeave);
    lemma_event_type_name_round_trip(EventType::MouseEnter);
    lemma_event_type_name_round_trip(EventType::KeyDown);
    lemma_event_type_name_round_trip(EventType::Copy);
    lemma_event_type_name_round_trip(EventType::Paste);
    lemma_event_type_name_round_trip(EventType::Cut);
    lemma_event_type_name_round_trip(EventType::ContextMenu);
    lemma_event_type_name_round_trip(EventType::Print);
    lemma_event_type_name_round_trip(EventType::FullscreenChange);
    lemma_event_type_name_round_trip(EventType::ScreenChange);
    lemma_event_type_name_round_trip(EventType::Custom);
}

} // verus!
