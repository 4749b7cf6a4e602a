//! Paint requests: how the answer to one is read.

use vstd::prelude::*;

verus! {

/// HTTP status of an accepted paint request.
pub const STATUS_OK: u16 = 200;

/// HTTP status of a paint request refused because the account is cooling
/// down.
pub const STATUS_TOO_MANY_REQUESTS: u16 = 429;

/// Why a request came to nothing.
#[derive(Clone, Copy, Debug, PartialEq, Eq)]
pub enum FailReason {
    /// No response arrived: the connection failed or timed out.
    Transport,
    /// A response arrived and its body could not be decoded.
    Decode,
    /// A response arrived with a status that is neither success nor
    /// rate limit.
    UnexpectedStatus(u16),
}

/// What one paint request gave.
#[derive(Clone, Copy, Debug, PartialEq, Eq)]
pub enum DrawResult {
    /// The canvas took the pixel; no further paint from this account for
    /// that many seconds.
    Accepted(u32),
    /// The canvas refused the pixel for cooldown alone; wait that many
    /// seconds.
    RateLimited(u32),
    /// The attempt failed.
    Failed(FailReason),
}

/// The outcome of one round trip of a paint request, as the transport
/// reports it.
#[derive(Clone, Copy, Debug, PartialEq, Eq)]
pub enum DrawReply {
    /// No response arrived.
    NoResponse,
    /// A response arrived: its status, and the `wait_seconds` of its body
    /// where the body could be decoded.
    Response { status: u16, wait_seconds: Option<u32> },
}

/// The classification policy.
pub open spec fn classify(reply: DrawReply) -> DrawResult {
    match reply {
        DrawReply::NoResponse => DrawResult::Failed(FailReason::Transport),
        DrawReply::Response { status, wait_seconds } => {
            if status == STATUS_OK || status == STATUS_TOO_MANY_REQUESTS {
                match wait_seconds {
                    Some(seconds) => if status == STATUS_OK {
                        DrawResult::Accepted(seconds)
                    } else {
                        DrawResult::RateLimited(seconds)
                    },
                    None => DrawResult::Failed(FailReason::Decode),
                }
            } else {
                DrawResult::Failed(FailReason::UnexpectedStatus(status))
            }
        },
    }
}

/// Classifies the answer to a paint request.
pub fn classify_draw(reply: DrawReply) -> (result: DrawResult)
    ensures
        result == classify(reply),
{
    match reply {
        DrawReply::NoResponse => DrawResult::Failed(FailReason::Transport),
        DrawReply::Response { status, wait_seconds } => {
            if status == STATUS_OK {
                match wait_seconds {
                    Some(seconds) => DrawResult::Accepted(seconds),
                    None => DrawResult::Failed(FailReason::Decode),
                }
            } else if status == STATUS_TOO_MANY_REQUESTS {
                match wait_seconds {
                    Some(seconds) => DrawResult::RateLimited(seconds),
                    None => DrawResult::Failed(FailReason::Decode),
                }
            } else {
                DrawResult::Failed(FailReason::UnexpectedStatus(status))
            }
        },
    }
}

/// The classification depends on the status and on whether the body could
/// be decoded, and on nothing else: success with a decodable body is
/// accepted, rate limit with a decodable body is rate-limited, and every
/// other reply is a failure.
pub proof fn classification_by_status_and_body(reply: DrawReply)
    ensures
        classify(reply) is Accepted <==> (reply matches DrawReply::Response { status, wait_seconds }
            && status == STATUS_OK && wait_seconds is Some),
        classify(reply) is RateLimited <==> (reply matches DrawReply::Response {
            status,
            wait_seconds,
        } && status == STATUS_TOO_MANY_REQUESTS && wait_seconds is Some),
        classify(reply) is Failed <==> !(reply matches DrawReply::Response { status, wait_seconds }
            && (status == STATUS_OK || status == STATUS_TOO_MANY_REQUESTS) && wait_seconds is Some),
        reply matches DrawReply::Response { status, wait_seconds: Some(seconds) } ==> (status
            == STATUS_OK ==> classify(reply) == DrawResult::Accepted(seconds)) && (status
            == STATUS_TOO_MANY_REQUESTS ==> classify(reply) == DrawResult::RateLimited(seconds)),
{
}

} // verus!
