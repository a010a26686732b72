//! Shapes and rules of the accrual service: what a reply means and which
//! address a request goes to.
use crate::text::{is_blank, text_view, trim, trimmed};
use vstd::prelude::*;

verus! {

/// The user behind an API key.
pub struct FlavortownUser {
    pub slack_id: String,
}

/// What a session tells the service about the program that opened it.
pub struct SessionMetadata {
    pub platform: &'static str,
    pub app_version: &'static str,
}

/// What the service made of a heartbeat.
#[derive(Clone, Copy, Debug, PartialEq, Eq)]
pub enum HeartbeatOutcome {
    /// Counted; this many users are active.
    ActiveUsers(u64),
    /// The service does not know the fingerprint.
    InvalidSessionId,
}

/// What the service made of a request to close the session.
#[derive(Clone, Copy, Debug, PartialEq, Eq)]
pub enum CloseOutcome {
    /// Closed; this many users are active.
    ActiveUsers(u64),
    /// The service does not know the fingerprint.
    InvalidSessionId,
}

/// The three kinds of HTTP status that the protocol tells apart.
#[derive(Clone, Copy, Debug, PartialEq, Eq)]
pub enum StatusClass {
    /// 200 to 299.
    Success,
    /// 404: the fingerprint is unknown.
    NotFound,
    /// Anything else.
    Failure,
}

/// The kind of an HTTP status.
pub open spec fn status_class(status: u16) -> StatusClass {
    if 200 <= status && status <= 299 {
        StatusClass::Success
    } else if status == 404 {
        StatusClass::NotFound
    } else {
        StatusClass::Failure
    }
}

/// Tells the kind of an HTTP status.
pub fn classify_status(status: u16) -> (class: StatusClass)
    ensures
        class == status_class(status),
{
    if 200 <= status && status <= 299 {
        StatusClass::Success
    } else if status == 404 {
        StatusClass::NotFound
    } else {
        StatusClass::Failure
    }
}

/// The count in a reply, zero where the reply leaves it out.
pub open spec fn count_or_zero(active_users: Option<u64>) -> u64 {
    match active_users {
        Some(count) => count,
        None => 0,
    }
}

/// Reads the reply to a heartbeat: a success carries the count of active
/// users, 404 says the fingerprint is invalid, any other status is a failure
/// (`None`).
pub fn heartbeat_outcome(status: u16, active_users: Option<u64>) -> (outcome: Option<
    HeartbeatOutcome,
>)
    ensures
        outcome == match status_class(status) {
            StatusClass::Success => Some(
                HeartbeatOutcome::ActiveUsers(count_or_zero(active_users)),
            ),
            StatusClass::NotFound => Some(HeartbeatOutcome::InvalidSessionId),
            StatusClass::Failure => None,
        },
{
    match classify_status(status) {
        StatusClass::Success => Some(
            HeartbeatOutcome::ActiveUsers(
                match active_users {
                    Some(count) => count,
                    None => 0,
                },
            ),
        ),
        StatusClass::NotFound => Some(HeartbeatOutcome::InvalidSessionId),
        StatusClass::Failure => None,
    }
}

/// Reads the reply to a request to close the session, as for a heartbeat.
pub fn close_outcome(status: u16, active_users: Option<u64>) -> (outcome: Option<CloseOutcome>)
    ensures
        outcome == match status_class(status) {
            StatusClass::Success => Some(CloseOutcome::ActiveUsers(count_or_zero(active_users))),
            StatusClass::NotFound => Some(CloseOutcome::InvalidSessionId),
            StatusClass::Failure => None,
        },
{
    match classify_status(status) {
        StatusClass::Success => Some(
            CloseOutcome::ActiveUsers(
                match active_users {
                    Some(count) => count,
                    None => 0,
                },
            ),
        ),
        StatusClass::NotFound => Some(CloseOutcome::InvalidSessionId),
        StatusClass::Failure => None,
    }
}

/// The error text of a request that the service refused: what failed, then
/// the status line and the body of the reply.
pub fn failure_message(what: &str, status_line: &str, body: &str) -> (message: String)
    ensures
        message@ == what@ + ": "@ + status_line@ + " "@ + body@,
{
    let mut message = String::from_str(what);
    message.append(": ");
    message.append(status_line);
    message.append(" ");
    message.append(body);
    message
}

/// The value of the authorization header for an API key.
pub fn authorization(api_key: &str) -> (header: String)
    ensures
        header@ == "Bearer "@ + trimmed(api_key@),
{
    let mut header = String::from_str("Bearer ");
    header.append(trim(api_key));
    header
}

/// The address of an operation of the service below its base address.
pub fn endpoint(base: &str, path: &str) -> (url: String)
    ensures
        url@ == base@ + path@,
{
    let mut url = String::from_str(base);
    url.append(path);
    url
}

/// The address that tells who an API key belongs to.
pub fn current_user_url(base: &str) -> (url: String)
    ensures
        url@ == base@ + "/api/v1/users/me"@,
{
    endpoint(base, "/api/v1/users/me")
}

/// The address that issues fingerprints.
pub fn session_url(base: &str) -> (url: String)
    ensures
        url@ == base@ + "/api/v1/flavortime/session"@,
{
    endpoint(base, "/api/v1/flavortime/session")
}

/// The address that takes heartbeats.
pub fn heartbeat_url(base: &str) -> (url: String)
    ensures
        url@ == base@ + "/api/v1/flavortime/heartbeat"@,
{
    endpoint(base, "/api/v1/flavortime/heartbeat")
}

/// The address that closes a session.
pub fn close_url(base: &str) -> (url: String)
    ensures
        url@ == base@ + "/api/v1/flavortime/close"@,
{
    endpoint(base, "/api/v1/flavortime/close")
}

/// The trimmed text of a field of a reply, or the given error where the
/// field is missing or blank.
pub fn required_field(value: &Option<String>, error: &str) -> (field: Result<String, String>)
    ensures
        match text_view(*value) {
            Some(text) if !is_blank(text) => field is Ok && field->Ok_0@ == trimmed(text),
            _ => field is Err && field->Err_0@ == error@,
        },
{
    match value {
        Some(text) => {
            let kept = trim(text.as_str());
            if kept.unicode_len() == 0 {
                Err(String::from_str(error))
            } else {
                Ok(String::from_str(kept))
            }
        },
        None => Err(String::from_str(error)),
    }
}

/// The user that a reply names, by the trimmed identity in it.
pub fn user_from_reply(slack_id: &Option<String>) -> (user: Result<FlavortownUser, String>)
    ensures
        match text_view(*slack_id) {
            Some(text) if !is_blank(text) => user is Ok && user->Ok_0.slack_id@ == trimmed(text),
            _ => user is Err && user->Err_0@
                == "No Slack ID associated with this Flavortown account"@,
        },
{
    match required_field(slack_id, "No Slack ID associated with this Flavortown account") {
        Ok(slack_id) => Ok(FlavortownUser { slack_id }),
        Err(error) => Err(error),
    }
}

/// The fingerprint that a reply issues, trimmed.
pub fn session_id_from_reply(session_id: &Option<String>) -> (fingerprint: Result<String, String>)
    ensures
        match text_view(*session_id) {
            Some(text) if !is_blank(text) => fingerprint is Ok && fingerprint->Ok_0@ == trimmed(
                text,
            ),
            _ => fingerprint is Err && fingerprint->Err_0@
                == "Flavortown did not return a session ID"@,
        },
{
    required_field(session_id, "Flavortown did not return a session ID")
}

} // verus!
