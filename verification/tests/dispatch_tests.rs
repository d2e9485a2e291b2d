use probeengine::contract::{CallMode, DemoCallId, DropSafety};
use probeengine::dispatch::{serve, step, CallAction, CallEvent, CallState, CallerStep};
use probeengine::user::{DemoCall, DemoComplicatedRequest, DemoResponse, DemoUser};
use probeengine::wire::DecodeError;

struct Adults;

impl DemoCall for Adults {
    fn demo_oneway(_req: &DemoUser) {}

    fn demo_check(req: &DemoComplicatedRequest) -> DemoResponse {
        DemoResponse { pass: req.users.iter().all(|user| user.age >= 18) }
    }

    fn demo_check_async(req: &DemoComplicatedRequest) -> DemoResponse {
        DemoResponse { pass: !req.balabala.is_empty() }
    }

    fn demo_check_async_safe(req: DemoComplicatedRequest) -> DemoResponse {
        DemoResponse { pass: req.users.len() == req.balabala.len() }
    }
}

const YES: DemoResponse = DemoResponse { pass: true };
const NO: DemoResponse = DemoResponse { pass: false };

fn request(ages: &[u8], block: &[u8]) -> Vec<u8> {
    DemoComplicatedRequest {
        users: ages.iter().map(|age| DemoUser { name: String::from("u"), age: *age }).collect(),
        balabala: block.to_vec(),
    }
    .encode()
}

#[test]
fn each_mode_has_its_step() {
    assert_eq!(CallMode::Oneway.caller_step(), CallerStep::ReturnAtOnce);
    assert_eq!(CallMode::Synchronous.caller_step(), CallerStep::WaitForAnswer);
    assert_eq!(CallMode::Asynchronous.caller_step(), CallerStep::HoldHandle);
}

#[test]
fn a_declared_oneway_call_is_not_waited_for() {
    let contract = DemoCallId::DemoOneway.contract();
    assert_eq!(contract.mode.caller_step(), CallerStep::ReturnAtOnce);
    assert_eq!(contract.response_type, None);
}

#[test]
fn a_oneway_call_gives_no_answer() {
    let bytes = DemoUser { name: String::from("eve"), age: 3 }.encode();
    assert_eq!(serve::<Adults>(DemoCallId::DemoOneway, &bytes), Ok(None));
}

#[test]
fn a_oneway_call_reads_a_user() {
    assert_eq!(serve::<Adults>(DemoCallId::DemoOneway, &request(&[1], &[])), Err(DecodeError::TrailingBytes));
    assert_eq!(serve::<Adults>(DemoCallId::DemoOneway, &[]), Err(DecodeError::Truncated));
}

#[test]
fn a_synchronous_call_gives_one_whole_answer() {
    let reply = serve::<Adults>(DemoCallId::DemoCheck, &request(&[18, 70], &[1])).unwrap().unwrap();
    assert_eq!(reply, vec![1]);
    assert_eq!(DemoResponse::decode(&reply), Ok(YES));
    let reply = serve::<Adults>(DemoCallId::DemoCheck, &request(&[18, 17], &[1])).unwrap().unwrap();
    assert_eq!(DemoResponse::decode(&reply), Ok(NO));
}

#[test]
fn each_call_reaches_its_own_implementation() {
    let bytes = request(&[10], &[]);
    assert_eq!(serve::<Adults>(DemoCallId::DemoCheck, &bytes), Ok(Some(vec![0])));
    assert_eq!(serve::<Adults>(DemoCallId::DemoCheckAsync, &bytes), Ok(Some(vec![0])));
    assert_eq!(serve::<Adults>(DemoCallId::DemoCheckAsyncSafe, &bytes), Ok(Some(vec![0])));
    let bytes = request(&[10], &[4]);
    assert_eq!(serve::<Adults>(DemoCallId::DemoCheck, &bytes), Ok(Some(vec![0])));
    assert_eq!(serve::<Adults>(DemoCallId::DemoCheckAsync, &bytes), Ok(Some(vec![1])));
    assert_eq!(serve::<Adults>(DemoCallId::DemoCheckAsyncSafe, &bytes), Ok(Some(vec![1])));
    let bytes = request(&[40], &[]);
    assert_eq!(serve::<Adults>(DemoCallId::DemoCheck, &bytes), Ok(Some(vec![1])));
    assert_eq!(serve::<Adults>(DemoCallId::DemoCheckAsync, &bytes), Ok(Some(vec![0])));
    assert_eq!(serve::<Adults>(DemoCallId::DemoCheckAsyncSafe, &bytes), Ok(Some(vec![0])));
}

#[test]
fn a_request_that_cannot_be_read_is_refused() {
    for call in [DemoCallId::DemoCheck, DemoCallId::DemoCheckAsync, DemoCallId::DemoCheckAsyncSafe] {
        assert_eq!(serve::<Adults>(call, &[]), Err(DecodeError::Truncated));
        assert_eq!(serve::<Adults>(call, &[0; 17]), Err(DecodeError::TrailingBytes));
        let mut bad_name = request(&[1], &[]);
        bad_name[16] = 0xff;
        assert_eq!(serve::<Adults>(call, &bad_name), Err(DecodeError::InvalidText));
    }
}

#[test]
fn an_answer_is_stored_and_then_delivered() {
    for safety in [DropSafety::Standard, DropSafety::DropSafeReturn] {
        let (state, action) = step(safety, CallState::Waiting, CallEvent::Polled);
        assert_eq!((state, action), (CallState::Waiting, CallAction::Wait));
        let (state, action) = step(safety, state, CallEvent::Completed { response: YES });
        assert_eq!((state, action), (CallState::Ready { response: YES }, CallAction::Wake));
        let (state, action) = step(safety, state, CallEvent::Polled);
        assert_eq!((state, action), (CallState::Closed, CallAction::Deliver { response: YES }));
    }
}

#[test]
fn an_abandoned_answer_is_discarded() {
    let (state, action) = step(DropSafety::DropSafeReturn, CallState::Waiting, CallEvent::Dropped);
    assert_eq!((state, action), (CallState::Abandoned, CallAction::Keep));
    let (state, action) = step(DropSafety::DropSafeReturn, state, CallEvent::Completed { response: NO });
    assert_eq!((state, action), (CallState::Closed, CallAction::Discard { response: NO }));
}

#[test]
fn a_ready_answer_that_is_let_go_is_discarded() {
    for safety in [DropSafety::Standard, DropSafety::DropSafeReturn] {
        assert_eq!(
            step(safety, CallState::Ready { response: YES }, CallEvent::Dropped),
            (CallState::Closed, CallAction::Discard { response: YES })
        );
    }
}

#[test]
fn letting_go_early_needs_the_declaration() {
    assert_eq!(
        step(DropSafety::Standard, CallState::Waiting, CallEvent::Dropped),
        (CallState::Waiting, CallAction::Refuse)
    );
}

#[test]
fn events_without_a_place_are_refused() {
    for safety in [DropSafety::Standard, DropSafety::DropSafeReturn] {
        let ready = CallState::Ready { response: YES };
        assert_eq!(step(safety, ready, CallEvent::Completed { response: NO }), (ready, CallAction::Refuse));
        assert_eq!(step(safety, CallState::Abandoned, CallEvent::Polled), (CallState::Abandoned, CallAction::Refuse));
        assert_eq!(step(safety, CallState::Abandoned, CallEvent::Dropped), (CallState::Abandoned, CallAction::Refuse));
        for event in [CallEvent::Completed { response: YES }, CallEvent::Polled, CallEvent::Dropped] {
            assert_eq!(step(safety, CallState::Closed, event), (CallState::Closed, CallAction::Refuse));
        }
    }
}

fn releases(safety: DropSafety, events: &[CallEvent]) -> (CallState, usize) {
    let mut state = CallState::Waiting;
    let mut released: usize = 0;
    for event in events.iter() {
        let (next, action) = step(safety, state, *event);
        if matches!(action, CallAction::Deliver { .. } | CallAction::Discard { .. }) {
            released += 1;
        }
        state = next;
    }
    (state, released)
}

#[test]
fn the_cell_is_released_at_most_once() {
    let events = [
        CallEvent::Completed { response: YES },
        CallEvent::Completed { response: NO },
        CallEvent::Polled,
        CallEvent::Dropped,
    ];
    for safety in [DropSafety::Standard, DropSafety::DropSafeReturn] {
        for a in events.iter() {
            for b in events.iter() {
                for c in events.iter() {
                    for d in events.iter() {
                        let (state, released) = releases(safety, &[*a, *b, *c, *d]);
                        assert!(released <= 1);
                        assert_eq!(released == 1, state == CallState::Closed);
                    }
                }
            }
        }
    }
}
