//! How each declared call proceeds.
//!
//! The side that answers reads the request, hands it to the implementation
//! and writes the answer. The side that calls either leaves at once, waits,
//! or holds a handle on a cell into which the answer is put. The cell
//! belongs to neither side alone: it is released once, by whichever event
//! comes last, so an answer that nobody waits for is dropped unseen.

use crate::contract::{CallMode, DemoCallId, DropSafety, RemoteCallContractView};
use crate::user::{
    lemma_response_round_trip, spec_decode_request, spec_decode_response, spec_decode_user,
    DemoCall, DemoComplicatedRequest, DemoResponse, DemoUser,
};
use crate::wire::DecodeError;
use vstd::prelude::*;

verus! {

/// What the side that makes a call does once the call is made.
#[derive(Clone, Copy, Debug, PartialEq, Eq, Structural)]
pub enum CallerStep {
    /// Go on at once: there is nothing to wait for.
    ReturnAtOnce,
    /// Stay until the answer is there.
    WaitForAnswer,
    /// Go on with a handle on the answer to come.
    HoldHandle,
}

impl CallMode {
    /// What the side that makes a call of this mode does once the call is
    /// made.
    pub open spec fn spec_caller_step(self) -> CallerStep {
        match self {
            CallMode::Oneway => CallerStep::ReturnAtOnce,
            CallMode::Synchronous => CallerStep::WaitForAnswer,
            CallMode::Asynchronous => CallerStep::HoldHandle,
        }
    }

    /// What the side that makes a call of this mode does once the call is
    /// made.
    pub fn caller_step(self) -> (step: CallerStep)
        ensures
            step == self.spec_caller_step(),
    {
        match self {
            CallMode::Oneway => CallerStep::ReturnAtOnce,
            CallMode::Synchronous => CallerStep::WaitForAnswer,
            CallMode::Asynchronous => CallerStep::HoldHandle,
        }
    }
}

/// A valid call that is made and left is never waited for: the side that
/// makes it goes on at once, and no answer is declared that it could wait
/// for.
pub proof fn lemma_oneway_is_not_waited_for(contract: RemoteCallContractView)
    requires
        contract.mode == CallMode::Oneway,
        contract.spec_validate() is Ok,
    ensures
        contract.mode.spec_caller_step() == CallerStep::ReturnAtOnce,
        contract.response_type is None,
{
}

/// Why the request of `call` cannot be read from `bytes`, if it cannot.
pub open spec fn spec_request_error(call: DemoCallId, bytes: Seq<u8>) -> Option<DecodeError> {
    match call {
        DemoCallId::DemoOneway => match spec_decode_user(bytes) {
            Ok(_) => None,
            Err(error) => Some(error),
        },
        _ => match spec_decode_request(bytes) {
            Ok(_) => None,
            Err(error) => Some(error),
        },
    }
}

/// Answers `call` for the side that implements the calls: reads the request
/// from `request`, hands it to the implementation, and writes the answer.
///
/// A request that cannot be read is refused, and nothing is handed on.
/// Otherwise a call that is made and left gives no answer, and every other
/// call gives bytes that hold one whole answer.
pub fn serve<C: DemoCall>(call: DemoCallId, request: &[u8]) -> (outcome: Result<
    Option<Vec<u8>>,
    DecodeError,
>)
    ensures
        match outcome {
            Err(error) => spec_request_error(call, request@) == Some(error),
            Ok(reply) => {
                &&& spec_request_error(call, request@) is None
                &&& reply is None <==> call.spec_contract().mode == CallMode::Oneway
                &&& reply is Some ==> spec_decode_response(reply->Some_0@) is Ok
            },
        },
{
    match call {
        DemoCallId::DemoOneway => match DemoUser::decode(request) {
            Err(error) => Err(error),
            Ok(user) => {
                C::demo_oneway(&user);
                Ok(None)
            },
        },
        _ => match DemoComplicatedRequest::decode(request) {
            Err(error) => Err(error),
            Ok(asked) => {
                let answer = match call {
                    DemoCallId::DemoCheck => C::demo_check(&asked),
                    DemoCallId::DemoCheckAsync => C::demo_check_async(&asked),
                    _ => C::demo_check_async_safe(asked),
                };
                let reply = answer.encode();
                proof {
                    lemma_response_round_trip(answer);
                }
                Ok(Some(reply))
            },
        },
    }
}

/// Where a call stands whose answer is put into a cell.
#[derive(Clone, Copy, Debug, PartialEq, Eq, Structural)]
pub enum CallState {
    /// The answer is not there, and the side that called holds the handle.
    Waiting,
    /// The answer is not there, and the side that called has gone.
    Abandoned,
    /// The answer is in the cell, and the side that called holds the handle.
    Ready { response: DemoResponse },
    /// The cell is released.
    Closed,
}

/// What happens to a call.
#[derive(Clone, Copy, Debug, PartialEq, Eq, Structural)]
pub enum CallEvent {
    /// The side that answers has finished with this answer.
    Completed { response: DemoResponse },
    /// The side that called asks for the answer.
    Polled,
    /// The side that called lets go of the handle.
    Dropped,
}

/// What is to be done on an event.
#[derive(Clone, Copy, Debug, PartialEq, Eq, Structural)]
pub enum CallAction {
    /// Tell the side that called that the answer is not there.
    Wait,
    /// The answer is stored: wake the side that called.
    Wake,
    /// Hand the answer to the side that called, and release the cell.
    Deliver { response: DemoResponse },
    /// Drop the answer unseen, and release the cell.
    Discard { response: DemoResponse },
    /// Keep the cell for the side that answers.
    Keep,
    /// The event has no place here: nothing is done and nothing changes.
    Refuse,
}

impl CallAction {
    /// Whether the action releases the cell.
    pub open spec fn spec_releases(self) -> bool {
        self is Deliver || self is Discard
    }
}

/// The state after `event` and what is to be done on it.
///
/// Letting go of the handle before the answer is there has a place only
/// where the call was declared safe for it.
pub open spec fn spec_step(safety: DropSafety, state: CallState, event: CallEvent) -> (
    CallState,
    CallAction,
) {
    match (state, event) {
        (CallState::Waiting, CallEvent::Completed { response }) => (
            CallState::Ready { response },
            CallAction::Wake,
        ),
        (CallState::Waiting, CallEvent::Polled) => (CallState::Waiting, CallAction::Wait),
        (CallState::Waiting, CallEvent::Dropped) => if safety == DropSafety::DropSafeReturn {
            (CallState::Abandoned, CallAction::Keep)
        } else {
            (CallState::Waiting, CallAction::Refuse)
        },
        (CallState::Abandoned, CallEvent::Completed { response }) => (
            CallState::Closed,
            CallAction::Discard { response },
        ),
        (CallState::Ready { response }, CallEvent::Polled) => (
            CallState::Closed,
            CallAction::Deliver { response },
        ),
        (CallState::Ready { response }, CallEvent::Dropped) => (
            CallState::Closed,
            CallAction::Discard { response },
        ),
        _ => (state, CallAction::Refuse),
    }
}

/// Decides what is to be done on `event` for a call in `state`, and where
/// the call stands afterwards.
pub fn step(safety: DropSafety, state: CallState, event: CallEvent) -> (next: (
    CallState,
    CallAction,
))
    ensures
        next == spec_step(safety, state, event),
{
    match (state, event) {
        (CallState::Waiting, CallEvent::Completed { response }) => (
            CallState::Ready { response },
            CallAction::Wake,
        ),
        (CallState::Waiting, CallEvent::Polled) => (CallState::Waiting, CallAction::Wait),
        (CallState::Waiting, CallEvent::Dropped) => match safety {
            DropSafety::DropSafeReturn => (CallState::Abandoned, CallAction::Keep),
            DropSafety::Standard => (CallState::Waiting, CallAction::Refuse),
        },
        (CallState::Abandoned, CallEvent::Completed { response }) => (
            CallState::Closed,
            CallAction::Discard { response },
        ),
        (CallState::Ready { response }, CallEvent::Polled) => (
            CallState::Closed,
            CallAction::Deliver { response },
        ),
        (CallState::Ready { response }, CallEvent::Dropped) => (
            CallState::Closed,
            CallAction::Discard { response },
        ),
        _ => (state, CallAction::Refuse),
    }
}

/// Where a call stands after `events`, one after the other.
pub open spec fn spec_run(safety: DropSafety, state: CallState, events: Seq<CallEvent>) -> CallState
    decreases events.len(),
{
    if events.len() == 0 {
        state
    } else {
        spec_step(safety, spec_run(safety, state, events.drop_last()), events.last()).0
    }
}

/// How often the cell is released over `events`.
pub open spec fn spec_releases(safety: DropSafety, state: CallState, events: Seq<CallEvent>) -> nat
    decreases events.len(),
{
    if events.len() == 0 {
        0
    } else {
        let before = spec_run(safety, state, events.drop_last());
        let earlier = spec_releases(safety, state, events.drop_last());
        if spec_step(safety, before, events.last()).1.spec_releases() {
            earlier + 1
        } else {
            earlier
        }
    }
}

/// Where the call was declared safe for it, letting go of the handle before
/// the answer is there does no harm: the cell is kept, and when the answer
/// comes it is dropped unseen and the cell is released. Neither event is
/// refused.
pub proof fn lemma_abandoned_answer_is_discarded(response: DemoResponse)
    ensures
        spec_step(DropSafety::DropSafeReturn, CallState::Waiting, CallEvent::Dropped) == (
            CallState::Abandoned,
            CallAction::Keep,
        ),
        spec_step(
            DropSafety::DropSafeReturn,
            CallState::Abandoned,
            CallEvent::Completed { response },
        ) == (CallState::Closed, CallAction::Discard { response }),
        spec_run(
            DropSafety::DropSafeReturn,
            CallState::Waiting,
            seq![CallEvent::Dropped, CallEvent::Completed { response }],
        ) == CallState::Closed,
{
    let events = seq![CallEvent::Dropped, CallEvent::Completed { response }];
    let first = seq![CallEvent::Dropped];
    assert(events.drop_last() =~= first);
    assert(first.drop_last() =~= Seq::<CallEvent>::empty());
    reveal_with_fuel(spec_run, 3);
}

/// An answer is handed over only whole and only once it is there: the
/// answer that is delivered is the one that the call held ready, and an
/// answer is held ready only after the side that answers has finished with
/// it.
pub proof fn lemma_delivered_answer_is_the_completed_one(
    safety: DropSafety,
    state: CallState,
    event: CallEvent,
)
    ensures
        spec_step(safety, state, event).1 matches CallAction::Deliver { response } ==> state
            == (CallState::Ready { response }) && event == CallEvent::Polled,
        spec_step(safety, state, event).0 matches CallState::Ready { response } ==> state
            == (CallState::Ready { response }) || (state == CallState::Waiting && event
            == (CallEvent::Completed { response })),
{
}

/// Once the cell is released nothing more is done with it.
pub proof fn lemma_closed_stays_closed(safety: DropSafety, events: Seq<CallEvent>)
    ensures
        spec_run(safety, CallState::Closed, events) == CallState::Closed,
        spec_releases(safety, CallState::Closed, events) == 0,
    decreases events.len(),
{
    if events.len() > 0 {
        lemma_closed_stays_closed(safety, events.drop_last());
    }
}

/// Whatever happens to a call, and in whatever order, its cell is released
/// at most once, and it has been released exactly when the call is closed.
pub proof fn lemma_cell_is_released_once(safety: DropSafety, events: Seq<CallEvent>)
    ensures
        spec_releases(safety, CallState::Waiting, events) <= 1,
        spec_releases(safety, CallState::Waiting, events) == 1 <==> spec_run(
            safety,
            CallState::Waiting,
            events,
        ) == CallState::Closed,
    decreases events.len(),
{
    if events.len() > 0 {
        lemma_cell_is_released_once(safety, events.drop_last());
    }
}

/// An event that is refused changes nothing.
pub proof fn lemma_refused_changes_nothing(safety: DropSafety, state: CallState, event: CallEvent)
    requires
        spec_step(safety, state, event).1 == CallAction::Refuse,
    ensures
        spec_step(safety, state, event).0 == state,
{
}

} // verus!
