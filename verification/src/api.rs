//! Decisions of the HTTP layer that do not depend on HTTP itself: which
//! requests are refused, and the body of an error reply.

use crate::models::{ReportEventRequest, SubmitAnswerRequest};
use std::collections::HashMap;
use vstd::prelude::*;
use vstd::string::StringExecFns;

verus! {

/// Query of a session listing: only the sessions of this user, when given.
#[derive(Debug, Clone)]
pub struct ListSessionsQuery {
    pub user_id: Option<String>,
}

/// Body of a request to flag a session by hand.
#[derive(Debug, Clone)]
pub struct MarkSuspiciousRequest {
    pub reason: String,
}

/// Why a request is refused before it reaches the service.
#[derive(Debug, Clone, Copy, PartialEq, Eq, Structural)]
pub enum RequestError {
    MissingSessionId,
    MissingEventType,
}

impl RequestError {
    /// The message sent back with the refusal.
    pub fn message(&self) -> (s: &'static str)
        ensures
            s@ == (match self {
                RequestError::MissingSessionId => "session_id is required"@,
                RequestError::MissingEventType => "event_type is required"@,
            }),
    {
        match self {
            RequestError::MissingSessionId => "session_id is required",
            RequestError::MissingEventType => "event_type is required",
        }
    }
}

/// An event report needs a session id and an event type name; the session
/// id is checked first.
pub fn validate_report_event(req: &ReportEventRequest) -> (r: Result<(), RequestError>)
    ensures
        req.session_id@.len() == 0 ==> r == Err::<(), RequestError>(RequestError::MissingSessionId),
        req.session_id@.len() != 0 && req.event_type@.len() == 0 ==> r == Err::<(), RequestError>(
            RequestError::MissingEventType,
        ),
        req.session_id@.len() != 0 && req.event_type@.len() != 0 ==> r is Ok,
{
    if req.session_id.as_str().is_empty() {
        Err(RequestError::MissingSessionId)
    } else if req.event_type.as_str().is_empty() {
        Err(RequestError::MissingEventType)
    } else {
        Ok(())
    }
}

/// An answer submission needs a session id.
pub fn validate_submit_answer(req: &SubmitAnswerRequest) -> (r: Result<(), RequestError>)
    ensures
        req.session_id@.len() == 0 ==> r == Err::<(), RequestError>(RequestError::MissingSessionId),
        req.session_id@.len() != 0 ==> r is Ok,
{
    if req.session_id.as_str().is_empty() {
        Err(RequestError::MissingSessionId)
    } else {
        Ok(())
    }
}

/// Wraps std's `HashMap::insert` for text keys: afterwards the map sends
/// `key` to `value` and is otherwise unchanged. `String` compares and hashes
/// by its contents, so the hash map behaves as a map of its entries. The
/// value the key had before is not returned.
#[verifier::external_body]
fn insert_text_entry(map: &mut HashMap<String, String>, key: String, value: String)
    ensures
        final(map)@ == old(map)@.insert(key, value),
{
    map.insert(key, value);
}

/// The body of an error reply: a single entry `"error"` holding the message.
pub fn error_response(message: &str) -> (r: HashMap<String, String>)
    ensures
        exists|k: String|
            r@.dom() == set![k] && #[trigger] k@ == "error"@ && r@[k]@ == message@,
{
    let mut response: HashMap<String, String> = HashMap::new();
    let key = String::from_str("error");
    let value = String::from_str(message);
    let ghost k = key;
    insert_text_entry(&mut response, key, value);
    assert(response@.dom() =~= set![k]);
    response
}

} // verus!
