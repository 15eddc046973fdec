//! The lifecycle of a request that was sent without waiting: poll, wait,
//! select.
//!
//! The operations in flight belong to the runtime; this module never looks
//! inside one. It is generic in the handle of a pending operation (`P`), of
//! a response (`R`) and of a streaming body (`B`), and says what becomes of
//! each handle when the runtime has answered. A failure of the runtime is
//! handed over as its text and reported as a send failure.

use vstd::prelude::*;
use crate::error::{try_fe, ErrorSlot, FastlyError};
use crate::handle::deliver;

verus! {

/// A pending operation in a box that can be emptied once. A group of
/// operations crosses the boundary as a vector of these.
#[derive(Debug, PartialEq, Eq)]
pub struct BoxPendingRequest<P>(pub Option<Box<P>>);

impl<P> BoxPendingRequest<P> {
    /// Whether the operation is still in the box.
    pub open spec fn usable(&self) -> bool {
        self.0 is Some
    }

    /// Whether the operation is still in the box.
    pub fn is_usable(&self) -> (b: bool)
        ensures
            b == self.usable(),
    {
        self.0.is_some()
    }

    /// The box after its operation was taken out.
    pub open spec fn emptied(self) -> Self {
        BoxPendingRequest(None)
    }

    /// Takes the operation out of the box, which is empty from then on.
    pub fn extract_req(&mut self) -> (req: Box<P>)
        requires
            old(self).usable(),
        ensures
            old(self).0 == Some(req),
            *final(self) == old(self).emptied(),
    {
        self.0.take().unwrap()
    }
}

/// Whether a group can be handed to a select: every operation is still in
/// its box.
pub open spec fn selectable<P>(group: Seq<BoxPendingRequest<P>>) -> bool {
    forall|i: int| 0 <= i < group.len() ==> (#[trigger] group[i]).usable()
}

/// An operation is taken out of its box once: the box it leaves behind
/// does not meet what a second taking requires, and a group that holds such
/// a box does not meet what a select requires.
pub proof fn lemma_extracted_once<P>(
    boxed_req: BoxPendingRequest<P>,
    group: Seq<BoxPendingRequest<P>>,
    at: int,
)
    requires
        0 <= at < group.len(),
    ensures
        !boxed_req.emptied().usable(),
        !boxed_req.emptied().emptied().usable(),
        !selectable(group.update(at, group[at].emptied())),
{
    assert(!(group.update(at, group[at].emptied())[at]).usable());
}

/// Puts a pending operation, boxed, at the end of a group.
pub fn f_http_push_box_pending_request_into_vec<P>(vec: &mut Vec<BoxPendingRequest<P>>, bx: Box<P>)
    ensures
        final(vec)@ == old(vec)@.push(BoxPendingRequest(Some(bx))),
{
    vec.push(BoxPendingRequest(Some(bx)))
}

/// The error object of a request that could not be sent or was not
/// answered, given the text of the failure: a send failure.
pub open spec fn send_failure(message: String) -> FastlyError {
    FastlyError::FastlySendError(message)
}

/// What the runtime answered, with a failure as the error object it is
/// reported as.
pub open spec fn sent<T>(answer: Result<T, String>) -> Result<T, FastlyError> {
    match answer {
        Ok(value) => Ok(value),
        Err(message) => Err(send_failure(message)),
    }
}

/// Turns the text of a failure of the runtime into the send failure it is
/// reported as.
fn reported<T>(answer: Result<T, String>) -> (outcome: Result<T, FastlyError>)
    ensures
        outcome == sent(answer),
{
    match answer {
        Ok(value) => Ok(value),
        Err(message) => Err(FastlyError::FastlySendError(message)),
    }
}

/// What the runtime answers to one poll of a pending operation.
#[derive(Debug, PartialEq, Eq)]
pub enum PollOutcome<P, R> {
    /// Still in flight; the handle to poll next.
    Pending(P),
    /// Resolved, to a response or to a failure, given by its text.
    Done(Result<R, String>),
}

/// The result of one poll, as the caller sees it: exactly one of a handle
/// to poll again, a response, or an error.
#[derive(Debug, PartialEq, Eq)]
pub enum PollResult<P, R> {
    Pending(P),
    Response(R),
    Error(FastlyError),
}

/// The result that stands for an answer of the runtime.
pub open spec fn poll_result<P, R>(polled: PollOutcome<P, R>) -> PollResult<P, R> {
    match polled {
        PollOutcome::Pending(next) => PollResult::Pending(next),
        PollOutcome::Done(Ok(response)) => PollResult::Response(response),
        PollOutcome::Done(Err(message)) => PollResult::Error(send_failure(message)),
    }
}

/// However often an operation is polled, each result is `Pending` exactly
/// when the runtime answered that the operation is still in flight, and
/// then carries the handle the runtime gave for the next poll; a result
/// that is not `Pending` carries what the runtime resolved the operation
/// to: the response, or a send failure with the text of the failure.
pub proof fn lemma_poll_follows_runtime<P, R>(polls: Seq<PollOutcome<P, R>>)
    ensures
        forall|i: int|
            0 <= i < polls.len() ==> (#[trigger] poll_result(polls[i]) is Pending
                <==> polls[i] is Pending),
        forall|i: int|
            0 <= i < polls.len() && polls[i] is Pending ==> #[trigger] poll_result(polls[i])
                == PollResult::<P, R>::Pending(polls[i]->Pending_0),
        (forall|i: int| 0 <= i < polls.len() ==> polls[i] is Pending) ==> (forall|i: int|
            0 <= i < polls.len() ==> #[trigger] poll_result(polls[i]) is Pending),
        forall|i: int|
            0 <= i < polls.len() && polls[i] is Done && polls[i]->Done_0 is Err
                ==> #[trigger] poll_result(polls[i]) == PollResult::<P, R>::Error(
                send_failure(polls[i]->Done_0->Err_0),
            ),
{
}

impl<P, R> PollResult<P, R> {
    /// Whether the poll found a response.
    pub fn is_response(&self) -> (b: bool)
        ensures
            b == (self is Response),
    {
        matches!(self, PollResult::Response(_))
    }

    /// Whether the operation is still in flight.
    pub fn is_pending(&self) -> (b: bool)
        ensures
            b == (self is Pending),
    {
        matches!(self, PollResult::Pending(_))
    }

    /// Whether the operation failed.
    pub fn is_error(&self) -> (b: bool)
        ensures
            b == (self is Error),
    {
        matches!(self, PollResult::Error(_))
    }
}

/// The handle to poll next, out of a result that is `Pending`.
pub fn m_http_request_poll_result_into_pending<P, R>(result: Box<PollResult<P, R>>) -> (pending:
    Box<P>)
    requires
        *result is Pending,
    ensures
        *pending == result->Pending_0,
{
    match *result {
        PollResult::Pending(pending_request) => Box::new(pending_request),
        _ => unreached(),
    }
}

/// The response, out of a result that is `Response`.
pub fn m_http_request_poll_result_into_response<P, R>(result: Box<PollResult<P, R>>) -> (response:
    Box<R>)
    requires
        *result is Response,
    ensures
        *response == result->Response_0,
{
    match *result {
        PollResult::Response(response) => Box::new(response),
        _ => unreached(),
    }
}

/// The error, out of a result that is `Error`.
pub fn m_http_request_poll_result_into_error<P, R>(result: Box<PollResult<P, R>>) -> (error: Box<
    FastlyError,
>)
    requires
        *result is Error,
    ensures
        *error == result->Error_0,
{
    match *result {
        PollResult::Error(err) => Box::new(err),
        _ => unreached(),
    }
}

/// Turns the runtime's answer to a poll into the result the caller
/// receives. The polled handle was consumed by the poll; a result that is
/// `Pending` carries the new one. A failure is reported as a send failure.
pub fn m_http_request_pending_request_poll<P, R>(polled: PollOutcome<P, R>) -> (result: Box<
    PollResult<P, R>,
>)
    ensures
        *result == poll_result(polled),
{
    Box::new(
        match polled {
            PollOutcome::Pending(pending_request) => PollResult::Pending(pending_request),
            PollOutcome::Done(Ok(response)) => PollResult::Response(response),
            PollOutcome::Done(Err(message)) => PollResult::Error(
                FastlyError::FastlySendError(message),
            ),
        },
    )
}

/// Reports what a pending operation resolved to, once the runtime has
/// waited for it: the response in `out` and an empty slot, or a send
/// failure with the text of the failure in the slot and `out` as it was.
pub fn m_http_request_pending_request_wait<R>(
    waited: Result<R, String>,
    out: &mut Option<Box<R>>,
    err: &mut ErrorSlot<FastlyError>,
)
    ensures
        final(err).null() <==> waited is Ok,
        waited matches Ok(response) ==> *final(out) == Some(Box::new(response)),
        waited matches Err(message) ==> final(err).holds(send_failure(message)) && *final(out)
            == *old(out),
{
    deliver(reported(waited), out, err)
}

/// The operations of a group, taken out of their boxes in the order of the
/// group. This is what is handed to the runtime to select from.
pub open spec fn unboxed<P>(group: Seq<BoxPendingRequest<P>>) -> Seq<P> {
    Seq::new(group.len(), |i: int| *group[i].0->Some_0)
}

/// The boxes a sequence of operations is handed back in, in the same order.
pub open spec fn boxed<P>(operations: Seq<P>) -> Seq<BoxPendingRequest<P>> {
    Seq::new(operations.len(), |i: int| BoxPendingRequest(Some(Box::new(operations[i]))))
}

/// The same elements, last first. Elements can only be moved out of the
/// end of a vector; turned round, a vector gives them up first to last.
fn turned_round<T>(items: Vec<T>) -> (turned: Vec<T>)
    ensures
        turned@.len() == items@.len(),
        forall|j: int|
            0 <= j < turned@.len() ==> #[trigger] turned@[j] == items@[items@.len() - 1 - j],
{
    let ghost all = items@;
    let mut items = items;
    let mut turned: Vec<T> = Vec::new();
    while items.len() > 0
        invariant
            items@.len() + turned@.len() == all.len(),
            items@ == all.take(items@.len() as int),
            forall|j: int|
                0 <= j < turned@.len() ==> #[trigger] turned@[j] == all[all.len() - 1 - j],
        decreases items.len(),
    {
        let x = items.pop().unwrap();
        turned.push(x);
    }
    turned
}

/// Empties the boxes of a group, in order, into the list of operations the
/// runtime selects from. The group is consumed.
pub fn select_group<P>(reqs: Vec<BoxPendingRequest<P>>) -> (operations: Vec<P>)
    requires
        selectable(reqs@),
    ensures
        operations@ == unboxed(reqs@),
{
    let ghost group = reqs@;
    let mut boxes = turned_round(reqs);
    let mut operations: Vec<P> = Vec::new();
    while boxes.len() > 0
        invariant
            boxes@.len() <= group.len(),
            forall|j: int|
                0 <= j < boxes@.len() ==> #[trigger] boxes@[j] == group[group.len() - 1 - j],
            forall|j: int| 0 <= j < group.len() ==> (#[trigger] group[j]).usable(),
            operations@ == unboxed(group).take(group.len() - boxes@.len()),
        decreases boxes.len(),
    {
        let ghost k = group.len() - boxes@.len();
        let mut slot = boxes.pop().unwrap();
        assert(slot == group[k]);
        let req = slot.extract_req();
        operations.push(*req);
        assert(unboxed(group).take(k + 1) =~= unboxed(group).take(k).push(unboxed(group)[k]));
    }
    assert(unboxed(group).take(group.len() as int) =~= unboxed(group));
    operations
}

/// A group after the runtime has taken the operation at `done` out of it.
/// The runtime closes the gap with the last operation of the group: that
/// one stands where the completed one stood, and every other operation
/// stands where it stood.
pub open spec fn taken_out<T>(group: Seq<T>, done: int) -> Seq<T> {
    if done == group.len() - 1 {
        group.drop_last()
    } else {
        group.update(done, group.last()).drop_last()
    }
}

/// What the runtime answers to a select over `operations`: the operation
/// at `done` has resolved, and `pending` is the group with that operation
/// taken out of it.
pub open spec fn select_answer<P>(operations: Seq<P>, done: int, pending: Seq<P>) -> bool {
    0 <= done < operations.len() && pending == taken_out(operations, done)
}

/// What the runtime left of a group, back in the order of the group, given
/// the position `done` at which the completed operation stood: the
/// operation that closed the gap goes back to the end. For a `done` at or
/// past the end nothing closed a gap, and the order is as it is.
pub open spec fn in_group_order<T>(pending: Seq<T>, done: int) -> Seq<T> {
    if 0 <= done < pending.len() {
        pending.remove(done).push(pending[done])
    } else {
        pending
    }
}

/// Putting back in order undoes what the runtime did to the order: what
/// comes out is the group without the completed operation, every other
/// operation once and in the order it had in the group.
pub proof fn lemma_back_in_group_order<T>(operations: Seq<T>, done: int, pending: Seq<T>)
    requires
        select_answer(operations, done, pending),
    ensures
        in_group_order(pending, done) == operations.remove(done),
        in_group_order(pending, done).len() == operations.len() - 1,
        forall|i: int|
            0 <= i < done ==> #[trigger] in_group_order(pending, done)[i] == operations[i],
        forall|i: int|
            done <= i < operations.len() - 1 ==> #[trigger] in_group_order(pending, done)[i]
                == operations[i + 1],
{
    assert(in_group_order(pending, done) =~= operations.remove(done));
}

/// Finds out which operation of a group completed, from marks of the
/// operations taken before the select, in the order of the group, and marks
/// of the pending operations taken after it, in the order the runtime
/// returned them. A mark is a number that moves with its operation and that
/// no two operations share.
///
/// Returns the position at which `after` is `before` with one mark taken
/// out the way the runtime takes an operation out, and `None` when `after`
/// is no such arrangement of `before`.
pub fn completed_position(before: &Vec<usize>, after: &Vec<usize>) -> (done: Option<usize>)
    ensures
        done matches Some(d) ==> d < before@.len() && after@ == taken_out(before@, d as int),
        done is None ==> forall|d: int|
            0 <= d < before@.len() ==> after@ != #[trigger] taken_out(before@, d),
{
    if before.len() == 0 || after.len() != before.len() - 1 {
        assert forall|d: int| 0 <= d < before@.len() implies after@ != #[trigger] taken_out(
            before@,
            d,
        ) by {
            assert(taken_out(before@, d).len() == before@.len() - 1);
        }
        return None;
    }
    let n = after.len();
    let mut i: usize = 0;
    while i < n && after[i] == before[i]
        invariant
            n == after@.len(),
            n + 1 == before@.len(),
            i <= n,
            forall|k: int| 0 <= k < i ==> after@[k] == before@[k],
        decreases n - i,
    {
        i = i + 1;
    }
    if i == n {
        assert(after@ =~= taken_out(before@, n as int));
        return Some(n);
    }
    if after[i] != before[n] {
        assert forall|d: int| 0 <= d < before@.len() implies after@ != #[trigger] taken_out(
            before@,
            d,
        ) by {
            assert(taken_out(before@, d)[i as int] != after@[i as int]);
        }
        return None;
    }
    let mut j: usize = i + 1;
    while j < n
        invariant
            n == after@.len(),
            n + 1 == before@.len(),
            i < j <= n,
            after@[i as int] != before@[i as int],
            after@[i as int] == before@[n as int],
            forall|k: int| 0 <= k < i ==> after@[k] == before@[k],
            forall|k: int| i < k < j ==> after@[k] == before@[k],
        decreases n - j,
    {
        if after[j] != before[j] {
            assert forall|d: int| 0 <= d < before@.len() implies after@ != #[trigger] taken_out(
                before@,
                d,
            ) by {
                if d == i {
                    assert(taken_out(before@, d)[j as int] != after@[j as int]);
                } else {
                    assert(taken_out(before@, d)[i as int] != after@[i as int]);
                }
            }
            return None;
        }
        j = j + 1;
    }
    assert(after@ =~= taken_out(before@, i as int));
    Some(i)
}

/// Puts what the runtime left of a group back in the order of the group.
fn put_in_group_order<T>(pending: Vec<T>, done: usize) -> (ordered: Vec<T>)
    ensures
        ordered@ == in_group_order(pending@, done as int),
{
    let mut pending = pending;
    if done < pending.len() {
        let closed_gap = pending.remove(done);
        pending.push(closed_gap);
    }
    pending
}

/// Reports the outcome of a select, once the runtime has answered with
/// the first completed result and the operations that are still pending.
///
/// `done` is the position, in the group that was selected from, of the
/// operation that completed; `pending` holds the others as the runtime
/// returned them, with the last operation of the group in the place of the
/// completed one. They are put back in the order of the group and then put,
/// boxed, at the end of `others`, whether the completed operation succeeded
/// or failed: none of them is dropped, and each stands before every
/// operation that stood behind it in the group. A `done` that is no position
/// in `pending` says that the last operation completed, and leaves the order
/// as it is.
///
/// The completed result goes to `out` and an empty slot; a failure goes to
/// the slot as a send failure with the text of the failure, and leaves `out`
/// as it was. Which operation completes first, and which one is reported
/// when several are ready at once, is the runtime's choice.
pub fn f_http_request_select<P, R>(
    selected: Result<R, String>,
    done: usize,
    pending: Vec<P>,
    out: &mut Option<Box<R>>,
    others: &mut Vec<BoxPendingRequest<P>>,
    err: &mut ErrorSlot<FastlyError>,
)
    ensures
        final(others)@ == old(others)@ + boxed(in_group_order(pending@, done as int)),
        final(err).null() <==> selected is Ok,
        selected matches Ok(response) ==> *final(out) == Some(Box::new(response)),
        selected matches Err(message) ==> final(err).holds(send_failure(message)) && *final(out)
            == *old(out),
{
    let ordered = put_in_group_order(pending, done);
    let ghost rest = ordered@;
    let mut moved = turned_round(ordered);
    while moved.len() > 0
        invariant
            moved@.len() <= rest.len(),
            forall|j: int|
                0 <= j < moved@.len() ==> #[trigger] moved@[j] == rest[rest.len() - 1 - j],
            others@ == old(others)@ + boxed(rest.take(rest.len() - moved@.len())),
        decreases moved.len(),
    {
        let ghost k = rest.len() - moved@.len();
        let x = moved.pop().unwrap();
        others.push(BoxPendingRequest(Some(Box::new(x))));
        assert(boxed(rest.take(k + 1)) =~= boxed(rest.take(k)).push(
            BoxPendingRequest(Some(Box::new(rest[k]))),
        ));
    }
    assert(rest.take(rest.len() as int) =~= rest);
    deliver(reported(selected), out, err)
}

/// A select over a group of N usable operations leaves the caller with
/// one completed result and with N - 1 operations: the ones that were not
/// selected, each once, in the order they had in the group, each in a box
/// it can still be taken from.
pub proof fn lemma_select_complete<P>(
    group: Seq<BoxPendingRequest<P>>,
    done: int,
    pending: Seq<P>,
    others: Seq<BoxPendingRequest<P>>,
)
    requires
        selectable(group),
        select_answer(unboxed(group), done, pending),
    ensures
        group.len() >= 1,
        in_group_order(pending, done) == unboxed(group).remove(done),
        unboxed(boxed(in_group_order(pending, done))) == unboxed(group).remove(done),
        (others + boxed(in_group_order(pending, done))).len() == others.len() + group.len() - 1,
        forall|i: int|
            0 <= i < group.len() - 1 ==> (#[trigger] boxed(
                in_group_order(pending, done),
            )[i]).usable(),
        forall|i: int|
            0 <= i < done ==> (#[trigger] boxed(in_group_order(pending, done))[i]) == group[i],
        forall|i: int|
            done <= i < group.len() - 1 ==> (#[trigger] boxed(in_group_order(pending, done))[i])
                == group[i + 1],
{
    let operations = unboxed(group);
    lemma_back_in_group_order(operations, done, pending);
    let ordered = in_group_order(pending, done);
    assert(unboxed(boxed(ordered)) =~= ordered);
    assert forall|i: int| 0 <= i < done implies (#[trigger] boxed(ordered)[i]) == group[i] by {
        assert(ordered[i] == operations[i]);
    }
    assert forall|i: int| done <= i < group.len() - 1 implies (#[trigger] boxed(ordered)[i])
        == group[i + 1] by {
        assert(ordered[i] == operations[i + 1]);
    }
}

/// What an asynchronous send with a streaming body hands back: the body
/// to write to and the operation to wait for, each to be taken once.
#[derive(Debug, PartialEq, Eq)]
pub struct AsyncStreamRes<B, P>(pub Option<Box<B>>, pub Option<Box<P>>);

impl<B, P> AsyncStreamRes<B, P> {
    /// The pair after its body was taken.
    pub open spec fn without_body(self) -> Self {
        AsyncStreamRes(None, self.1)
    }

    /// The pair after its pending operation was taken.
    pub open spec fn without_req(self) -> Self {
        AsyncStreamRes(self.0, None)
    }

    /// Takes the streaming body, which can be taken once.
    pub fn take_body(&mut self) -> (body: Box<B>)
        requires
            old(self).0 is Some,
        ensures
            old(self).0 == Some(body),
            *final(self) == old(self).without_body(),
    {
        self.0.take().unwrap()
    }

    /// Takes the pending operation, which can be taken once.
    pub fn take_req(&mut self) -> (req: Box<P>)
        requires
            old(self).1 is Some,
        ensures
            old(self).1 == Some(req),
            *final(self) == old(self).without_req(),
    {
        self.1.take().unwrap()
    }
}

/// The body and the pending operation of a streaming send are each taken
/// once: what a taking leaves behind does not meet what a second taking of
/// the same part requires, and leaves the other part as it was.
pub proof fn lemma_taken_once<B, P>(pair: AsyncStreamRes<B, P>)
    ensures
        pair.without_body().0 is None,
        pair.without_body().1 == pair.1,
        pair.without_req().1 is None,
        pair.without_req().0 == pair.0,
        pair.without_body().without_req() == AsyncStreamRes::<B, P>(None, None),
{
}

/// Reports the outcome of a send that waited for its response: the
/// response in `out` and an empty slot, or a send failure with the text of
/// the failure in the slot and `out` as it was.
pub fn m_http_request_send<R>(
    answered: Result<R, String>,
    out: &mut Option<Box<R>>,
    err: &mut ErrorSlot<FastlyError>,
)
    ensures
        final(err).null() <==> answered is Ok,
        answered matches Ok(response) ==> *final(out) == Some(Box::new(response)),
        answered matches Err(message) ==> final(err).holds(send_failure(message)) && *final(out)
            == *old(out),
{
    deliver(reported(answered), out, err)
}

/// Reports the outcome of starting a request: the pending operation in
/// `out` and an empty slot, or, when the request could not be dispatched,
/// a send failure with the text of the failure in the slot and `out` as it
/// was.
pub fn m_http_request_send_async<P>(
    started: Result<P, String>,
    out: &mut Option<Box<P>>,
    err: &mut ErrorSlot<FastlyError>,
)
    ensures
        final(err).null() <==> started is Ok,
        started matches Ok(pending) ==> *final(out) == Some(Box::new(pending)),
        started matches Err(message) ==> final(err).holds(send_failure(message)) && *final(out)
            == *old(out),
{
    deliver(reported(started), out, err)
}

/// Reports the outcome of starting a request with a streaming body: the
/// body and the pending operation, each in a box of its own, in `out` and
/// an empty slot; or a send failure with the text of the failure in the slot
/// and `out` as it was.
pub fn m_http_request_send_async_streaming<B, P>(
    started: Result<(B, P), String>,
    out: &mut Option<Box<AsyncStreamRes<B, P>>>,
    err: &mut ErrorSlot<FastlyError>,
)
    ensures
        final(err).null() <==> started is Ok,
        started matches Ok(pair) ==> *final(out) == Some(
            Box::new(AsyncStreamRes(Some(Box::new(pair.0)), Some(Box::new(pair.1)))),
        ),
        started matches Err(message) ==> final(err).holds(send_failure(message)) && *final(out)
            == *old(out),
{
    match try_fe(err, reported(started)) {
        Some((body, req)) => {
            *out = Some(Box::new(AsyncStreamRes(Some(Box::new(body)), Some(Box::new(req)))));
        },
        None => {},
    }
}

} // verus!
