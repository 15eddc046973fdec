use fastly_bridge::error::{ErrorSlot, FastlyError, FastlyErrorCode};
use fastly_bridge::http::request::{
    completed_position, f_http_push_box_pending_request_into_vec, f_http_request_select,
    m_http_request_pending_request_poll, m_http_request_pending_request_wait,
    m_http_request_poll_result_into_error, m_http_request_poll_result_into_pending,
    m_http_request_poll_result_into_response, m_http_request_send, m_http_request_send_async,
    m_http_request_send_async_streaming, select_group, AsyncStreamRes, BoxPendingRequest,
    PollOutcome, PollResult,
};

/// A pending operation of a pretend runtime: the backend it was sent to, and
/// the number of polls after which it resolves.
#[derive(Debug, PartialEq, Eq)]
struct Flight {
    backend: &'static str,
    polls_left: u32,
}

/// A response of the pretend runtime: the name of the backend that answered.
#[derive(Debug, PartialEq, Eq)]
struct Answer {
    backend: &'static str,
}

fn flight(backend: &'static str, polls_left: u32) -> Flight {
    Flight { backend, polls_left }
}

fn boxed(backend: &'static str, polls_left: u32) -> BoxPendingRequest<Flight> {
    BoxPendingRequest(Some(Box::new(flight(backend, polls_left))))
}

fn runtime_poll(flight: Flight) -> PollOutcome<Flight, Answer> {
    if flight.polls_left == 0 {
        PollOutcome::Done(Ok(Answer { backend: flight.backend }))
    } else {
        PollOutcome::Pending(Flight { backend: flight.backend, polls_left: flight.polls_left - 1 })
    }
}

fn runtime_wait(flight: Flight) -> Result<Answer, String> {
    Ok(Answer { backend: flight.backend })
}

/// Resolves the operation with the fewest polls left, the first of them on a
/// tie, and hands the others back with the last one moved into the gap.
fn runtime_select(mut group: Vec<Flight>) -> (Result<Answer, String>, Vec<Flight>) {
    let mut first = 0;
    for (i, flight) in group.iter().enumerate() {
        if flight.polls_left < group[first].polls_left {
            first = i;
        }
    }
    let done = group.swap_remove(first);
    (Ok(Answer { backend: done.backend }), group)
}

/// The marks of a group: the address of the name of each backend, which
/// moves with its operation.
fn marks(group: &[Flight]) -> Vec<usize> {
    group.iter().map(|flight| flight.backend.as_ptr() as usize).collect()
}

/// One select over a group, from the boxes that go in to the boxes that come
/// out.
fn select(
    group: Vec<BoxPendingRequest<Flight>>,
    response: &mut Option<Box<Answer>>,
    others: &mut Vec<BoxPendingRequest<Flight>>,
    slot: &mut ErrorSlot<FastlyError>,
) {
    let operations = select_group(group);
    let before = marks(&operations);
    let (selected, pending) = runtime_select(operations);
    let done = completed_position(&before, &marks(&pending)).unwrap();
    f_http_request_select(selected, done, pending, response, others, slot);
}

#[test]
fn polling_an_unresolved_operation_gives_pending_each_time() {
    let mut operation = flight("origin", 4);
    for left in [3u32, 2, 1, 0] {
        let result = m_http_request_pending_request_poll(runtime_poll(operation));
        assert!(result.is_pending());
        assert!(!result.is_response());
        assert!(!result.is_error());
        operation = *m_http_request_poll_result_into_pending(result);
        assert_eq!(operation, flight("origin", left));
    }
    let result = m_http_request_pending_request_poll(runtime_poll(operation));
    assert!(result.is_response());
    assert!(!result.is_pending());
    let answer = m_http_request_poll_result_into_response(result);
    assert_eq!(*answer, Answer { backend: "origin" });
}

#[test]
fn a_failed_operation_polls_to_a_send_failure() {
    let polled: PollOutcome<Flight, Answer> =
        PollOutcome::Done(Err(String::from("connection refused")));
    let result = m_http_request_pending_request_poll(polled);
    assert!(result.is_error());
    assert!(!result.is_pending());
    assert!(!result.is_response());
    let error = m_http_request_poll_result_into_error(result);
    assert_eq!(error.error_code(), FastlyErrorCode::FastlySendError);
    assert_eq!(*error, FastlyError::FastlySendError(String::from("connection refused")));
}

#[test]
fn a_poll_result_holds_what_the_runtime_answered() {
    let pending: Box<PollResult<u8, u16>> =
        m_http_request_pending_request_poll(PollOutcome::Pending(7u8));
    assert_eq!(*pending, PollResult::Pending(7));
    let response: Box<PollResult<u8, u16>> =
        m_http_request_pending_request_poll(PollOutcome::Done(Ok(200u16)));
    assert_eq!(*response, PollResult::Response(200));
}

#[test]
fn send_async_then_poll_once_then_wait_echoes_the_backend() {
    let mut slot: ErrorSlot<FastlyError> = ErrorSlot::new();
    let mut pending: Option<Box<Flight>> = None;
    m_http_request_send_async(Ok(flight("primary", 2)), &mut pending, &mut slot);
    assert!(slot.is_null());
    let operation = pending.take().unwrap();

    let result = m_http_request_pending_request_poll(runtime_poll(*operation));
    assert!(result.is_pending());
    let operation = m_http_request_poll_result_into_pending(result);

    let mut response: Option<Box<Answer>> = None;
    m_http_request_pending_request_wait(runtime_wait(*operation), &mut response, &mut slot);
    assert!(slot.is_null());
    assert_eq!(response, Some(Box::new(Answer { backend: "primary" })));
}

#[test]
fn a_request_that_cannot_be_dispatched_is_a_send_failure() {
    let mut slot: ErrorSlot<FastlyError> = ErrorSlot::new();
    let mut pending: Option<Box<Flight>> = None;
    m_http_request_send_async(Err(String::from("malformed target")), &mut pending, &mut slot);
    assert_eq!(pending, None);
    assert_eq!(
        slot.take().map(|e| *e),
        Some(FastlyError::FastlySendError(String::from("malformed target")))
    );
}

#[test]
fn a_send_that_waits_reports_on_both_channels() {
    let mut slot: ErrorSlot<FastlyError> = ErrorSlot::new();
    let mut response: Option<Box<Answer>> = None;
    m_http_request_send(Ok(Answer { backend: "a" }), &mut response, &mut slot);
    assert!(slot.is_null());
    assert_eq!(response, Some(Box::new(Answer { backend: "a" })));

    m_http_request_send(Err(String::from("timed out")), &mut response, &mut slot);
    assert_eq!(
        slot.take().map(|e| *e),
        Some(FastlyError::FastlySendError(String::from("timed out")))
    );
    assert_eq!(response, Some(Box::new(Answer { backend: "a" })));
}

#[test]
fn a_wait_that_fails_leaves_the_response_location_alone() {
    let mut slot: ErrorSlot<FastlyError> = ErrorSlot::new();
    let mut response: Option<Box<Answer>> = None;
    m_http_request_pending_request_wait(
        Err(String::from("first byte timeout")),
        &mut response,
        &mut slot,
    );
    assert_eq!(response, None);
    let error = slot.take().unwrap();
    assert_eq!(error.error_code(), FastlyErrorCode::FastlySendError);
    assert_eq!(*error, FastlyError::FastlySendError(String::from("first byte timeout")));
}

#[test]
fn select_over_three_leaves_two_and_a_second_select_leaves_one() {
    let mut group: Vec<BoxPendingRequest<Flight>> = Vec::new();
    for (backend, polls_left) in [("slow", 9u32), ("fast", 1), ("medium", 5)] {
        f_http_push_box_pending_request_into_vec(&mut group, Box::new(flight(backend, polls_left)));
    }
    assert_eq!(group.len(), 3);
    assert!(group.iter().all(|b| b.is_usable()));

    let mut slot: ErrorSlot<FastlyError> = ErrorSlot::new();
    let mut response: Option<Box<Answer>> = None;
    let mut others: Vec<BoxPendingRequest<Flight>> = Vec::new();
    select(group, &mut response, &mut others, &mut slot);
    assert!(slot.is_null());
    assert_eq!(response, Some(Box::new(Answer { backend: "fast" })));
    assert_eq!(others.len(), 2);
    assert!(others.iter().all(|b| b.is_usable()));
    assert_eq!(others, vec![boxed("slow", 9), boxed("medium", 5)]);

    let mut rest: Vec<BoxPendingRequest<Flight>> = Vec::new();
    select(others, &mut response, &mut rest, &mut slot);
    assert!(slot.is_null());
    assert_eq!(response, Some(Box::new(Answer { backend: "medium" })));
    assert_eq!(rest.len(), 1);

    let operation = rest[0].extract_req();
    assert!(!rest[0].is_usable());
    let mut last: Option<Box<Answer>> = None;
    m_http_request_pending_request_wait(runtime_wait(*operation), &mut last, &mut slot);
    assert_eq!(last, Some(Box::new(Answer { backend: "slow" })));
}

#[test]
fn the_operations_left_by_a_select_keep_the_order_of_the_group() {
    let mut slot: ErrorSlot<FastlyError> = ErrorSlot::new();
    let mut response: Option<Box<Answer>> = None;

    // The runtime answers [d, b, c]; the group order of what is left is
    // [b, c, d].
    let group = vec![boxed("a", 0), boxed("b", 4), boxed("c", 5), boxed("d", 6)];
    let operations = select_group(group);
    let before = marks(&operations);
    let (selected, pending) = runtime_select(operations);
    assert_eq!(pending, vec![flight("d", 6), flight("b", 4), flight("c", 5)]);
    let done = completed_position(&before, &marks(&pending));
    assert_eq!(done, Some(0));
    let mut others = vec![boxed("earlier", 3)];
    f_http_request_select(selected, 0, pending, &mut response, &mut others, &mut slot);
    assert_eq!(response, Some(Box::new(Answer { backend: "a" })));
    assert_eq!(others, vec![boxed("earlier", 3), boxed("b", 4), boxed("c", 5), boxed("d", 6)]);

    // Completed in the middle.
    let mut others = Vec::new();
    let group = vec![boxed("a", 7), boxed("b", 4), boxed("c", 1), boxed("d", 6), boxed("e", 9)];
    select(group, &mut response, &mut others, &mut slot);
    assert_eq!(response, Some(Box::new(Answer { backend: "c" })));
    assert_eq!(others, vec![boxed("a", 7), boxed("b", 4), boxed("d", 6), boxed("e", 9)]);

    // Completed at the end: nothing closed a gap.
    let mut others = Vec::new();
    let group = vec![boxed("a", 7), boxed("b", 4), boxed("c", 1)];
    select(group, &mut response, &mut others, &mut slot);
    assert_eq!(response, Some(Box::new(Answer { backend: "c" })));
    assert_eq!(others, vec![boxed("a", 7), boxed("b", 4)]);

    // On a tie the pretend runtime reports the first; the others keep
    // their order.
    let mut others = Vec::new();
    let group = vec![boxed("a", 2), boxed("b", 2), boxed("c", 2)];
    select(group, &mut response, &mut others, &mut slot);
    assert_eq!(response, Some(Box::new(Answer { backend: "a" })));
    assert_eq!(others, vec![boxed("b", 2), boxed("c", 2)]);
}

#[test]
fn a_position_that_is_none_in_what_is_left_leaves_the_order_as_it_is() {
    let mut slot: ErrorSlot<FastlyError> = ErrorSlot::new();
    let mut response: Option<Box<Answer>> = None;
    let mut others = Vec::new();
    f_http_request_select(
        Ok(Answer { backend: "z" }),
        2,
        vec![flight("x", 1), flight("y", 2)],
        &mut response,
        &mut others,
        &mut slot,
    );
    assert_eq!(others, vec![boxed("x", 1), boxed("y", 2)]);
    let mut others = Vec::new();
    f_http_request_select(
        Ok(Answer { backend: "z" }),
        usize::MAX,
        vec![flight("x", 1), flight("y", 2)],
        &mut response,
        &mut others,
        &mut slot,
    );
    assert_eq!(others, vec![boxed("x", 1), boxed("y", 2)]);
}

#[test]
fn the_completed_position_is_read_from_the_marks() {
    assert_eq!(completed_position(&vec![10, 20, 30, 40], &vec![40, 20, 30]), Some(0));
    assert_eq!(completed_position(&vec![10, 20, 30, 40], &vec![10, 40, 30]), Some(1));
    assert_eq!(completed_position(&vec![10, 20, 30, 40], &vec![10, 20, 40]), Some(2));
    assert_eq!(completed_position(&vec![10, 20, 30, 40], &vec![10, 20, 30]), Some(3));
    assert_eq!(completed_position(&vec![10], &vec![]), Some(0));
    assert_eq!(completed_position(&vec![10, 20], &vec![20]), Some(0));
    assert_eq!(completed_position(&vec![10, 20], &vec![10]), Some(1));
}

#[test]
fn marks_that_are_no_answer_of_the_runtime_give_no_position() {
    assert_eq!(completed_position(&vec![], &vec![]), None);
    assert_eq!(completed_position(&vec![10, 20, 30], &vec![10, 20, 30]), None);
    assert_eq!(completed_position(&vec![10, 20, 30], &vec![10]), None);
    assert_eq!(completed_position(&vec![10, 20, 30, 40], &vec![20, 30, 40]), None);
    assert_eq!(completed_position(&vec![10, 20, 30, 40], &vec![40, 30, 20]), None);
    assert_eq!(completed_position(&vec![10, 20, 30, 40], &vec![10, 99, 30]), None);
    assert_eq!(completed_position(&vec![10, 20, 30, 40], &vec![10, 40, 99]), None);
}

#[test]
fn a_select_that_fails_still_hands_the_others_back() {
    let mut slot: ErrorSlot<FastlyError> = ErrorSlot::new();
    let mut response: Option<Box<Answer>> = None;
    let mut others = vec![boxed("earlier", 3)];
    f_http_request_select(
        Err(String::from("reset")),
        0,
        vec![flight("y", 2), flight("x", 1)],
        &mut response,
        &mut others,
        &mut slot,
    );
    assert_eq!(response, None);
    assert_eq!(
        slot.take().map(|e| *e),
        Some(FastlyError::FastlySendError(String::from("reset")))
    );
    assert_eq!(others, vec![boxed("earlier", 3), boxed("x", 1), boxed("y", 2)]);
}

#[test]
fn a_group_of_one_selects_to_an_empty_remainder() {
    let mut slot: ErrorSlot<FastlyError> = ErrorSlot::new();
    let mut response: Option<Box<Answer>> = None;
    let mut others: Vec<BoxPendingRequest<Flight>> = Vec::new();
    select(vec![boxed("only", 0)], &mut response, &mut others, &mut slot);
    assert_eq!(response, Some(Box::new(Answer { backend: "only" })));
    assert!(others.is_empty());
}

#[test]
fn a_streaming_send_hands_out_a_body_and_an_operation_once_each() {
    let mut slot: ErrorSlot<FastlyError> = ErrorSlot::new();
    let mut out: Option<Box<AsyncStreamRes<String, Flight>>> = None;
    m_http_request_send_async_streaming(
        Ok((String::from("body"), flight("upload", 0))),
        &mut out,
        &mut slot,
    );
    assert!(slot.is_null());
    let mut pair = out.unwrap();
    assert_eq!(*pair.take_body(), "body");
    assert_eq!(pair.0, None);
    assert_eq!(*pair.take_req(), flight("upload", 0));
    assert_eq!(pair.1, None);

    let mut out: Option<Box<AsyncStreamRes<String, Flight>>> = None;
    m_http_request_send_async_streaming(Err(String::from("no backend")), &mut out, &mut slot);
    assert_eq!(out, None);
    assert_eq!(
        slot.take().map(|e| *e),
        Some(FastlyError::FastlySendError(String::from("no backend")))
    );
}
