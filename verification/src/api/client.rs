//! The request that a lookup sends and the reading of what comes back.
//!
//! Sending the request is left to the caller: a lookup is one request, never
//! repeated.

use vstd::prelude::*;
use vstd::string::*;
use super::ApiConfig;
use super::UserData;
use super::UserResponse;

verus! {

/// Scheme of the authorization header, with the space that follows it.
pub const BEARER_PREFIX: &'static str = "Bearer ";

/// One request for the balance: a `GET` of `url` with the given
/// authorization header.
#[derive(Clone, Debug, PartialEq, Eq)]
pub struct Request {
    pub url: String,
    pub authorization: String,
    pub user_id: Option<String>,
}

/// What the transport tells of one request.
#[derive(Clone, Debug, PartialEq, Eq)]
pub enum Reply {
    /// The request did not complete.
    Failed,
    /// The service answered. `body` is `None` where what it sent is no
    /// response envelope.
    Answered { status: u16, body: Option<UserResponse> },
}

/// Why a lookup gave no counters.
#[derive(Clone, Debug, PartialEq, Eq)]
pub enum FetchError {
    /// The request did not complete.
    Network,
    /// The service answered with a status outside 200 to 299.
    Status(u16),
    /// The answer is no response envelope.
    Malformed,
    /// The envelope reports failure or holds no data.
    Rejected { message: Option<String> },
}

/// Whether an HTTP status reports success.
pub open spec fn is_success(status: u16) -> bool {
    200 <= status < 300
}

/// What a reply means: the counters, or the first reason why there are none.
pub open spec fn reading(reply: Reply) -> Result<UserData, FetchError> {
    match reply {
        Reply::Failed => Err(FetchError::Network),
        Reply::Answered { status, body } => if !is_success(status) {
            Err(FetchError::Status(status))
        } else {
            match body {
                None => Err(FetchError::Malformed),
                Some(envelope) => match envelope.data {
                    Some(data) if envelope.success => Ok(data),
                    _ => Err(FetchError::Rejected { message: envelope.message }),
                },
            }
        },
    }
}

/// The request that asks for the balance under `config`.
pub fn build_request(config: ApiConfig) -> (request: Request)
    ensures
        request.url == config.api_url,
        request.authorization@ == BEARER_PREFIX@ + config.api_key@,
        request.user_id == config.user_id,
{
    let mut authorization = String::from_str(BEARER_PREFIX);
    authorization.append(config.api_key.as_str());
    Request { url: config.api_url, authorization, user_id: config.user_id }
}

/// Reads a reply. The counters are returned exactly where the request
/// completed with a success status and an envelope that reports success and
/// holds data.
pub fn interpret_reply(reply: Reply) -> (outcome: Result<UserData, FetchError>)
    ensures
        outcome == reading(reply),
        outcome is Ok <==> (reply matches Reply::Answered { status, body: Some(envelope) }
            && is_success(status) && envelope.success && envelope.data is Some),
{
    match reply {
        Reply::Failed => Err(FetchError::Network),
        Reply::Answered { status, body } => {
            if status < 200 || status >= 300 {
                return Err(FetchError::Status(status));
            }
            match body {
                None => Err(FetchError::Malformed),
                Some(envelope) => {
                    if !envelope.success {
                        return Err(FetchError::Rejected { message: envelope.message });
                    }
                    match envelope.data {
                        Some(data) => Ok(data),
                        None => Err(FetchError::Rejected { message: envelope.message }),
                    }
                },
            }
        },
    }
}

/// A reply gives counters if and only if nothing is wrong with it, and each
/// error comes with exactly one kind of fault: no answer, a status that is
/// no success, a body that is no envelope, an envelope that reports failure
/// or holds no data. A fault that comes earlier in this list hides the later
/// ones.
pub proof fn lemma_reading_cases(reply: Reply)
    ensures
        reading(reply) is Ok <==> (reply matches Reply::Answered { status, body: Some(envelope) }
            && is_success(status) && envelope.success && envelope.data is Some),
        reading(reply) matches Ok(data) ==> reply->body->0.data == Some(data),
        reading(reply) == Err::<UserData, FetchError>(FetchError::Network) <==> reply is Failed,
        reading(reply) matches Err(FetchError::Status(_)) <==> (reply matches Reply::Answered {
            status,
            ..
        } && !is_success(status)),
        reading(reply) matches Err(FetchError::Status(status)) ==> reply->status == status,
        reading(reply) == Err::<UserData, FetchError>(FetchError::Malformed) <==> (
        reply matches Reply::Answered { status, body: None } && is_success(status)),
        reading(reply) matches Err(FetchError::Rejected { .. }) <==> (reply matches Reply::Answered {
            status,
            body: Some(envelope),
        } && is_success(status) && (!envelope.success || envelope.data is None)),
        reading(reply) matches Err(FetchError::Rejected { message }) ==> reply->body->0.message
            == message,
{
}

} // verus!
