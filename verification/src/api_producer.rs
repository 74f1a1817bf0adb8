//! The API producer: turns an API request into a validated stream event,
//! and decides what the request is answered.

use vstd::prelude::*;
use vstd::string::*;
use crate::types::events::{ActionType, EventPayload, StreamEvent, UserActionEvent};
use crate::types::ids::RequestId;
use crate::types::validated::{bounded_outcome, String100, String1000, ValidationError};
use crate::text::prefixed;

verus! {

/// The body of an API request, as sent.
#[derive(Debug, Clone, PartialEq, Eq)]
pub struct ApiRequest {
    pub user_id: String,
    pub action: String,
    pub details: String,
}

/// The body of the answer to an accepted request.
#[derive(Debug, Clone, PartialEq, Eq)]
pub struct ApiResponse {
    pub request_id: String,
    pub message: String,
}

/// The body of the answer to a refused request.
#[derive(Debug, Clone, PartialEq, Eq)]
pub struct ErrorResponse {
    pub error: String,
}

/// Why an API request could not become a stream event.
#[derive(Debug, Clone, PartialEq, Eq)]
pub enum EventRequestError {
    /// The user id was refused.
    InvalidUserId(ValidationError),
    /// The details were refused.
    InvalidDetails(ValidationError),
    /// The action names no kind of action; the action as sent.
    InvalidActionType(String),
}

impl EventRequestError {
    /// The text that describes the error.
    pub open spec fn message(&self) -> Seq<char> {
        match self {
            EventRequestError::InvalidUserId(e) => "Invalid user_id: "@ + e.message(),
            EventRequestError::InvalidDetails(e) => "Invalid details: "@ + e.message(),
            EventRequestError::InvalidActionType(action) => "Invalid action type: "@ + action@,
        }
    }

    /// Describes the error.
    pub fn to_string(&self) -> (r: String)
        ensures
            r@ == self.message(),
    {
        match self {
            EventRequestError::InvalidUserId(e) => prefixed(
                "Invalid user_id: ",
                e.to_string().as_str(),
            ),
            EventRequestError::InvalidDetails(e) => prefixed(
                "Invalid details: ",
                e.to_string().as_str(),
            ),
            EventRequestError::InvalidActionType(action) => prefixed(
                "Invalid action type: ",
                action.as_str(),
            ),
        }
    }
}

/// The lower-case form of `s`, as `str::to_lowercase` gives it: each
/// character replaced by its Unicode lower-case mapping.
pub uninterp spec fn unicode_lowercase(s: Seq<char>) -> Seq<char>;

/// Calls `str::to_lowercase`; the result is named, as a function of `s`
/// alone, by `unicode_lowercase`.
#[verifier::external_body]
fn to_lowercase(s: &str) -> (r: String)
    ensures
        r@ == unicode_lowercase(s@),
{
    s.to_lowercase()
}

/// The kind of action that the lower-case name `name` stands for.
pub open spec fn action_named(name: Seq<char>) -> Option<ActionType> {
    if name == "create"@ {
        Some(ActionType::Create)
    } else if name == "update"@ {
        Some(ActionType::Update)
    } else if name == "delete"@ {
        Some(ActionType::Delete)
    } else if name == "view"@ {
        Some(ActionType::View)
    } else {
        None
    }
}

/// A name stands for a kind of action only when it is one of the four names
/// exactly, letter for letter: `create`, `update`, `delete` and `view`. Every
/// other text, a longer one that starts with a name (such as `updated`)
/// among them, stands for none.
pub proof fn law_only_exact_action_names(name: Seq<char>)
    ensures
        action_named(name) == Some(ActionType::Create) <==> name == seq!['c', 'r', 'e', 'a', 't', 'e'],
        action_named(name) == Some(ActionType::Update) <==> name == seq!['u', 'p', 'd', 'a', 't', 'e'],
        action_named(name) == Some(ActionType::Delete) <==> name == seq!['d', 'e', 'l', 'e', 't', 'e'],
        action_named(name) == Some(ActionType::View) <==> name == seq!['v', 'i', 'e', 'w'],
        action_named(name) is None <==> name != seq!['c', 'r', 'e', 'a', 't', 'e'] && name
            != seq!['u', 'p', 'd', 'a', 't', 'e'] && name != seq!['d', 'e', 'l', 'e', 't', 'e']
            && name != seq!['v', 'i', 'e', 'w'],
{
    reveal_strlit("create");
    reveal_strlit("update");
    reveal_strlit("delete");
    reveal_strlit("view");
    assert("create"@ =~= seq!['c', 'r', 'e', 'a', 't', 'e']);
    assert("update"@ =~= seq!['u', 'p', 'd', 'a', 't', 'e']);
    assert("delete"@ =~= seq!['d', 'e', 'l', 'e', 't', 'e']);
    assert("view"@ =~= seq!['v', 'i', 'e', 'w']);
}

/// The kind of action that the lower-case name `name` stands for: `create`,
/// `update`, `delete` or `view`.
pub fn parse_action_type(name: &str) -> (r: Option<ActionType>)
    ensures
        r == action_named(name@),
        r == Some(ActionType::Create) <==> name@ == seq!['c', 'r', 'e', 'a', 't', 'e'],
        r == Some(ActionType::Update) <==> name@ == seq!['u', 'p', 'd', 'a', 't', 'e'],
        r == Some(ActionType::Delete) <==> name@ == seq!['d', 'e', 'l', 'e', 't', 'e'],
        r == Some(ActionType::View) <==> name@ == seq!['v', 'i', 'e', 'w'],
{
    proof {
        law_only_exact_action_names(name@);
    }
    let name = String::from_str(name);
    if name == String::from_str("create") {
        Some(ActionType::Create)
    } else if name == String::from_str("update") {
        Some(ActionType::Update)
    } else if name == String::from_str("delete") {
        Some(ActionType::Delete)
    } else if name == String::from_str("view") {
        Some(ActionType::View)
    } else {
        None
    }
}

/// The stream event for an API request: the user id must be valid text of
/// at most 100 characters, the details of at most 1000, and the action, in any
/// case, must name a kind of action; they are checked in that order.
pub fn create_domain_event(request_id: RequestId, api_request: ApiRequest) -> (r: Result<
    StreamEvent,
    EventRequestError,
>)
    ensures
        match (
            bounded_outcome(api_request.user_id@, 100),
            bounded_outcome(api_request.details@, 1000),
            action_named(unicode_lowercase(api_request.action@)),
        ) {
            (Err(e), _, _) => r == Err::<StreamEvent, _>(EventRequestError::InvalidUserId(e)),
            (Ok(_), Err(e), _) => r == Err::<StreamEvent, _>(EventRequestError::InvalidDetails(e)),
            (Ok(_), Ok(_), None) => r matches Err(EventRequestError::InvalidActionType(action))
                && action@ == api_request.action@,
            (Ok(user), Ok(details), Some(kind)) => {
                &&& r is Ok
                &&& r->Ok_0.request_id == request_id
                &&& r->Ok_0.payload is UserAction
                &&& r->Ok_0.payload->UserAction_0.user_id@ == user
                &&& r->Ok_0.payload->UserAction_0.details@ == details
                &&& r->Ok_0.payload->UserAction_0.action_type == kind
            },
        },
{
    let user_id = match String100::create(api_request.user_id) {
        Ok(v) => v,
        Err(e) => return Err(EventRequestError::InvalidUserId(e)),
    };
    let details = match String1000::create(api_request.details) {
        Ok(v) => v,
        Err(e) => return Err(EventRequestError::InvalidDetails(e)),
    };
    let lowered = to_lowercase(api_request.action.as_str());
    let action_type = match parse_action_type(lowered.as_str()) {
        Some(kind) => kind,
        None => return Err(EventRequestError::InvalidActionType(api_request.action)),
    };
    let payload = EventPayload::UserAction(UserActionEvent { user_id, action_type, details });
    Ok(StreamEvent::new(request_id, payload))
}

/// How far an API request got through the producer.
#[derive(Debug, Clone)]
pub enum ProducerStep {
    /// The body could not be read as a request; the text says why.
    Unreadable(String),
    /// The request could not become a stream event.
    Invalid(EventRequestError),
    /// The event could not be pushed to the stream.
    PushFailed,
    /// The event was pushed to the stream.
    Pushed,
}

/// The answer to an API request.
#[derive(Debug, Clone, PartialEq, Eq)]
pub enum ApiReply {
    /// Status 200, with the request's id.
    Accepted(ApiResponse),
    /// An error status, with the error's text.
    Refused { status: u16, body: ErrorResponse },
}

/// The status of an answer.
pub open spec fn reply_status(reply: ApiReply) -> u16 {
    match reply {
        ApiReply::Accepted(_) => 200,
        ApiReply::Refused { status, .. } => status,
    }
}

/// The status that a request that got as far as `step` is answered with.
pub open spec fn status_for(step: ProducerStep) -> u16 {
    match step {
        ProducerStep::Unreadable(_) => 400,
        ProducerStep::Invalid(_) => 400,
        ProducerStep::PushFailed => 500,
        ProducerStep::Pushed => 200,
    }
}

/// A request is accepted exactly when its event was pushed; a request that
/// could not be read or validated is the client's error, a failed push the
/// server's.
pub proof fn law_accepted_only_when_pushed(step: ProducerStep)
    ensures
        status_for(step) == 200 <==> step is Pushed,
        (step is Unreadable || step is Invalid) <==> status_for(step) == 400,
        step is PushFailed <==> status_for(step) == 500,
{
}

/// The answer to the request `request_id` that got as far as `step`: 400
/// when it could not be read or was invalid, 500 when the push failed, and
/// 200 with the request id once the event was pushed.
pub fn producer_reply(request_id: &RequestId, step: &ProducerStep) -> (r: ApiReply)
    ensures
        reply_status(r) == status_for(*step),
        match *step {
            ProducerStep::Unreadable(reason) => r matches ApiReply::Refused { status, body }
                && status == 400 && body.error@ == "Invalid request: "@ + reason@,
            ProducerStep::Invalid(e) => r matches ApiReply::Refused { status, body } && status
                == 400 && body.error@ == "Validation failed: "@ + e.message(),
            ProducerStep::PushFailed => r matches ApiReply::Refused { status, body } && status
                == 500 && body.error@ == "Failed to process request"@,
            ProducerStep::Pushed => r matches ApiReply::Accepted(response)
                && response.request_id@ == request_id@ && response.message@ == "Event accepted"@,
        },
{
    match step {
        ProducerStep::Unreadable(reason) => ApiReply::Refused {
            status: 400,
            body: ErrorResponse { error: prefixed("Invalid request: ", reason.as_str()) },
        },
        ProducerStep::Invalid(e) => ApiReply::Refused {
            status: 400,
            body: ErrorResponse { error: prefixed("Validation failed: ", e.to_string().as_str()) },
        },
        ProducerStep::PushFailed => ApiReply::Refused {
            status: 500,
            body: ErrorResponse { error: String::from_str("Failed to process request") },
        },
        ProducerStep::Pushed => ApiReply::Accepted(
            ApiResponse {
                request_id: request_id.to_string(),
                message: String::from_str("Event accepted"),
            },
        ),
    }
}

} // verus!
