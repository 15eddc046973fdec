//! Outcomes of the callbacks that fetch and post-process included fragments.

use vstd::prelude::*;

verus! {

/// What a fragment-dispatch callback reports back.
#[derive(Copy, Clone, Debug, PartialEq, Eq, Structural)]
pub enum DispatchFragmentRequestFnResult {
    Error,
    PendingRequest,
    CompletedRequest,
    NoContent,
}

/// The content a dispatched fragment request stands for.
#[derive(Debug, PartialEq, Eq)]
pub enum FragmentContent<P, R> {
    /// The request is in flight.
    PendingRequest(P),
    /// The request was answered.
    CompletedRequest(R),
    /// The fragment has no content.
    NoContent,
}

/// The name under which a failed dispatch callback is reported.
pub const DISPATCH_FRAGMENT_REQUEST: &'static str = "dispatch_fragment_request";

/// The name under which a failed post-processing callback is reported.
pub const PROCESS_FRAGMENT_RESPONSE: &'static str = "process_fragment_response";

/// What a dispatch callback's report means, given the two output
/// locations the callback could fill.
pub open spec fn dispatch_outcome<P, R>(
    result: DispatchFragmentRequestFnResult,
    out_pending: Option<Box<P>>,
    out_completed: Option<Box<R>>,
) -> Result<FragmentContent<P, R>, &'static str> {
    match result {
        DispatchFragmentRequestFnResult::PendingRequest => Ok(
            FragmentContent::PendingRequest(*out_pending->Some_0),
        ),
        DispatchFragmentRequestFnResult::CompletedRequest => Ok(
            FragmentContent::CompletedRequest(*out_completed->Some_0),
        ),
        DispatchFragmentRequestFnResult::NoContent => Ok(FragmentContent::NoContent),
        DispatchFragmentRequestFnResult::Error => Err(DISPATCH_FRAGMENT_REQUEST),
    }
}

/// Reads what a dispatch callback reported.
///
/// A callback that reports a pending or a completed request must have
/// filled the matching output location; the handle in it is taken over. A
/// callback that reports an error is turned into the name of the function
/// that failed. A handle in a location that the report does not speak of is
/// released.
pub fn dispatch_fragment_request<P, R>(
    result: DispatchFragmentRequestFnResult,
    out_pending: Option<Box<P>>,
    out_completed: Option<Box<R>>,
) -> (content: Result<FragmentContent<P, R>, &'static str>)
    requires
        result == DispatchFragmentRequestFnResult::PendingRequest ==> out_pending is Some,
        result == DispatchFragmentRequestFnResult::CompletedRequest ==> out_completed is Some,
    ensures
        content == dispatch_outcome(result, out_pending, out_completed),
{
    match result {
        DispatchFragmentRequestFnResult::PendingRequest => Ok(
            FragmentContent::PendingRequest(*out_pending.unwrap()),
        ),
        DispatchFragmentRequestFnResult::CompletedRequest => Ok(
            FragmentContent::CompletedRequest(*out_completed.unwrap()),
        ),
        DispatchFragmentRequestFnResult::NoContent => Ok(FragmentContent::NoContent),
        DispatchFragmentRequestFnResult::Error => Err(DISPATCH_FRAGMENT_REQUEST),
    }
}

/// Reads what a post-processing callback reported: on success the
/// response it left in its output location, which it must have filled; on
/// failure the name of the function that failed.
pub fn process_fragment_response<R>(succeeded: bool, out_response: Option<Box<R>>) -> (response:
    Result<R, &'static str>)
    requires
        succeeded ==> out_response is Some,
    ensures
        succeeded ==> response == Ok::<R, &'static str>(*out_response->Some_0),
        !succeeded ==> response == Err::<R, &'static str>(PROCESS_FRAGMENT_RESPONSE),
{
    if succeeded {
        Ok(*out_response.unwrap())
    } else {
        Err(PROCESS_FRAGMENT_RESPONSE)
    }
}

} // verus!
