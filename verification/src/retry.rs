//! What follows the end of a connection.
use crate::text::{contains, has_substring, law_substring_stands_between};
use vstd::prelude::*;

verus! {

/// The longest wait between two connections, in milliseconds.
pub const MAX_BACKOFF_MILLIS: u64 = 15000;

/// The wait from which doubling starts, in milliseconds.
pub const INITIAL_BACKOFF_MILLIS: u64 = 10;

/// The status codes of remote procedure calls.
#[derive(Clone, Copy, Debug, PartialEq, Eq, Structural)]
pub enum Code {
    Success,
    Cancelled,
    Unknown,
    InvalidArgument,
    DeadlineExceeded,
    NotFound,
    AlreadyExists,
    PermissionDenied,
    ResourceExhausted,
    FailedPrecondition,
    Aborted,
    OutOfRange,
    Unimplemented,
    Internal,
    Unavailable,
    DataLoss,
    Unauthenticated,
}

/// How a connection ended.
#[derive(Debug, PartialEq, Eq)]
pub enum ConnectionEnd {
    /// It came to an end without an error.
    Complete,
    /// It could not be established.
    Connection,
    /// The server ended it with a status.
    GrpcStatus { code: Code, message: String },
    /// It failed in another way.
    Other,
}

/// The reason under which the end of a connection is counted.
#[derive(Clone, Copy, Debug, PartialEq, Eq, Structural)]
pub enum ConnectionTerminationReason {
    ConnectionError,
    Error,
    Reconnect,
    Complete,
}

/// What follows the end of a connection.
#[derive(Clone, Copy, Debug, PartialEq, Eq, Structural)]
pub struct RetryPlan {
    /// The reason under which the end is counted.
    pub reason: ConnectionTerminationReason,
    /// Whether to wait out the backoff before the next connection.
    pub wait: bool,
    /// The backoff, in milliseconds.
    pub backoff_millis: u64,
}

/// Twice the backoff, but no more than the longest wait.
pub open spec fn doubled_backoff(backoff_millis: int) -> int {
    if 2 * backoff_millis <= MAX_BACKOFF_MILLIS {
        2 * backoff_millis
    } else {
        MAX_BACKOFF_MILLIS as int
    }
}

/// The server ended the connection in the ordinary course of things.
pub open spec fn is_ordinary_end(code: Code, message: Seq<char>) -> bool {
    ||| code is Unknown
    ||| code is Cancelled
    ||| code is DeadlineExceeded
    ||| code is Unavailable && (has_substring(message, "transport is closing"@) || has_substring(
        message,
        "received prior goaway"@,
    ))
}

/// The reason under which the end of a connection is counted.
pub open spec fn termination_reason(end: ConnectionEnd) -> ConnectionTerminationReason {
    match end {
        ConnectionEnd::Complete => ConnectionTerminationReason::Complete,
        ConnectionEnd::Connection => ConnectionTerminationReason::ConnectionError,
        ConnectionEnd::GrpcStatus { code, message } => if is_ordinary_end(code, message@) {
            ConnectionTerminationReason::Reconnect
        } else {
            ConnectionTerminationReason::Error
        },
        ConnectionEnd::Other => ConnectionTerminationReason::Error,
    }
}

/// The client waits before the next connection.
pub open spec fn backs_off(end: ConnectionEnd) -> bool {
    end is Connection || end is GrpcStatus
}

/// The backoff that follows the end of a connection.
pub open spec fn next_backoff(backoff_millis: int, end: ConnectionEnd) -> int {
    if backs_off(end) {
        doubled_backoff(backoff_millis)
    } else {
        INITIAL_BACKOFF_MILLIS as int
    }
}

/// Doubles the backoff, up to the longest wait.
pub fn double_backoff(backoff_millis: u64) -> (doubled: u64)
    ensures
        doubled == doubled_backoff(backoff_millis as int),
{
    if backoff_millis <= MAX_BACKOFF_MILLIS / 2 {
        2 * backoff_millis
    } else {
        MAX_BACKOFF_MILLIS
    }
}

/// Tells whether the server ended the connection in the ordinary course of things.
pub fn ordinary_end(code: Code, message: &String) -> (ordinary: bool)
    ensures
        ordinary == is_ordinary_end(code, message@),
{
    code == Code::Unknown || code == Code::Cancelled || code == Code::DeadlineExceeded || (code
        == Code::Unavailable && contains(message.as_str(), "transport is closing")) || (code
        == Code::Unavailable && contains(message.as_str(), "received prior goaway"))
}

/// Decides what follows the end of a connection.
pub fn plan_retry(backoff_millis: u64, end: &ConnectionEnd) -> (plan: RetryPlan)
    ensures
        plan.reason == termination_reason(*end),
        plan.wait == backs_off(*end),
        plan.backoff_millis == next_backoff(backoff_millis as int, *end),
{
    match end {
        ConnectionEnd::Complete => RetryPlan {
            reason: ConnectionTerminationReason::Complete,
            wait: false,
            backoff_millis: INITIAL_BACKOFF_MILLIS,
        },
        ConnectionEnd::Connection => RetryPlan {
            reason: ConnectionTerminationReason::ConnectionError,
            wait: true,
            backoff_millis: double_backoff(backoff_millis),
        },
        ConnectionEnd::GrpcStatus { code, message } => RetryPlan {
            reason: if ordinary_end(*code, message) {
                ConnectionTerminationReason::Reconnect
            } else {
                ConnectionTerminationReason::Error
            },
            wait: true,
            backoff_millis: double_backoff(backoff_millis),
        },
        ConnectionEnd::Other => RetryPlan {
            reason: ConnectionTerminationReason::Error,
            wait: false,
            backoff_millis: INITIAL_BACKOFF_MILLIS,
        },
    }
}

/// The backoff after a run of connections that ended one after the other.
pub open spec fn backoff_after(ends: Seq<ConnectionEnd>) -> int
    decreases ends.len(),
{
    if ends.len() == 0 {
        INITIAL_BACKOFF_MILLIS as int
    } else {
        next_backoff(backoff_after(ends.drop_last()), ends.last())
    }
}

/// However connections end, the backoff stays between its initial value and its maximum.
pub proof fn law_backoff_is_bounded(ends: Seq<ConnectionEnd>)
    ensures
        INITIAL_BACKOFF_MILLIS <= backoff_after(ends) <= MAX_BACKOFF_MILLIS,
    decreases ends.len(),
{
    if ends.len() > 0 {
        law_backoff_is_bounded(ends.drop_last());
    }
}

/// When connections fail one after the other with a connection error or a status, the backoff
/// doubles each time until it reaches its maximum.
pub proof fn law_backoff_doubles(ends: Seq<ConnectionEnd>)
    requires
        forall|i: int| 0 <= i < ends.len() ==> backs_off(#[trigger] ends[i]),
    ensures
        backoff_after(ends) == if INITIAL_BACKOFF_MILLIS * vstd::arithmetic::power2::pow2(
            ends.len(),
        ) <= MAX_BACKOFF_MILLIS {
            INITIAL_BACKOFF_MILLIS * vstd::arithmetic::power2::pow2(ends.len())
        } else {
            MAX_BACKOFF_MILLIS as int
        },
    decreases ends.len(),
{
    if ends.len() == 0 {
        vstd::arithmetic::power2::lemma2_to64();
    } else {
        let earlier = ends.drop_last();
        assert forall|i: int| 0 <= i < earlier.len() implies backs_off(#[trigger] earlier[i]) by {
            assert(earlier[i] == ends[i]);
        }
        law_backoff_doubles(earlier);
        vstd::arithmetic::power2::lemma_pow2_unfold(ends.len());
        assert(backs_off(ends[ends.len() - 1]));
    }
}

/// An end that is neither a connection error nor a status resets the backoff, whatever came
/// before, and the next connection begins at once.
pub proof fn law_other_ends_reset_the_backoff(ends: Seq<ConnectionEnd>, end: ConnectionEnd)
    requires
        !backs_off(end),
    ensures
        end is Complete || end is Other,
        backoff_after(ends.push(end)) == INITIAL_BACKOFF_MILLIS,
{
}

/// A connection error or a status doubles the backoff up to fifteen seconds and is waited out;
/// any other end sets it to ten milliseconds and is not.
pub proof fn law_backoff_follows_the_end(backoff_millis: int, end: ConnectionEnd)
    ensures
        end is Connection || end is GrpcStatus ==> {
            &&& backs_off(end)
            &&& next_backoff(backoff_millis, end) <= 15000
            &&& next_backoff(backoff_millis, end) <= 2 * backoff_millis
            &&& next_backoff(backoff_millis, end) == 15000 || next_backoff(backoff_millis, end) == 2
                * backoff_millis
        },
        end is Complete || end is Other ==> !backs_off(end) && next_backoff(backoff_millis, end)
            == 10,
        INITIAL_BACKOFF_MILLIS == 10,
        MAX_BACKOFF_MILLIS == 15000,
{
}

/// Every end is counted under the reason that fits it. Among the ends by a status those are
/// reconnects that have the code of an unknown error, of a cancellation or of a deadline, and those
/// that are unavailable with a message that speaks of a closing transport or of a prior goaway.
pub proof fn law_ends_are_counted_by_their_reason(end: ConnectionEnd)
    ensures
        termination_reason(end) is Complete <==> end is Complete,
        termination_reason(end) is ConnectionError <==> end is Connection,
        termination_reason(end) is Reconnect <==> end is GrpcStatus && ({
            let code = end->code;
            let message = end->message@;
            ||| code is Unknown
            ||| code is Cancelled
            ||| code is DeadlineExceeded
            ||| code is Unavailable && exists|before: Seq<char>, after: Seq<char>|
                message == #[trigger] (before + "transport is closing"@ + after)
            ||| code is Unavailable && exists|before: Seq<char>, after: Seq<char>|
                message == #[trigger] (before + "received prior goaway"@ + after)
        }),
{
    if let ConnectionEnd::GrpcStatus { code: _, message } = end {
        law_substring_stands_between(message@, "transport is closing"@);
        law_substring_stands_between(message@, "received prior goaway"@);
    }
}

/// A plan counts the end under its reason and waits exactly after a connection error or a status:
/// twice as long as before, but no longer than fifteen seconds. Else the backoff is ten
/// milliseconds.
pub proof fn law_plan_follows_the_end(backoff_millis: u64, end: ConnectionEnd, plan: RetryPlan)
    requires
        call_ensures(plan_retry, (backoff_millis, &end), plan),
    ensures
        plan.reason == termination_reason(end),
        plan.wait <==> end is Connection || end is GrpcStatus,
        plan.wait ==> plan.backoff_millis <= 15000 && plan.backoff_millis <= 2 * backoff_millis && (
        plan.backoff_millis == 15000 || plan.backoff_millis == 2 * backoff_millis),
        !plan.wait ==> plan.backoff_millis == 10,
{
    law_backoff_follows_the_end(backoff_millis as int, end);
}

} // verus!
