//! Tests of the poll-loop state machine and its adaptive backoff.

use net_connection::error::NetError;
use net_connection::net_connection::NetHandler;
use net_connection::poll_loop::{next_backoff, PollLoop, BACKOFF_MAX_US, BACKOFF_MIN_US};
use net_connection::workers::{
    DefWorkerFactory, EchoWorkerFactory, FailingFactory, FailingWorkerFactory, NullHandler,
    RejectingHandler, VecHandler,
};

#[test]
fn backoff_doubles_until_the_cap() {
    // The computed idle sleep sequence is 100, 200, 400, ... capped at
    // 10_000 microseconds, never more.
    let mut us = BACKOFF_MIN_US;
    let mut seen = Vec::new();
    for _ in 0..12 {
        us = next_backoff(us, false);
        seen.push(us);
    }
    assert_eq!(
        vec![200, 400, 800, 1600, 3200, 6400, 10_000, 10_000, 10_000, 10_000, 10_000, 10_000],
        seen
    );
    for v in &seen {
        assert!(*v <= BACKOFF_MAX_US);
    }
}

#[test]
fn backoff_is_monotone_when_idle() {
    let mut us = BACKOFF_MIN_US;
    for _ in 0..20 {
        let next = next_backoff(us, false);
        assert!(next >= us);
        us = next;
    }
}

#[test]
fn activity_resets_the_backoff() {
    // After idling up to the cap, one active iteration brings the sleep
    // back down to the minimum, not the escalated value.
    let mut us = BACKOFF_MIN_US;
    for _ in 0..10 {
        us = next_backoff(us, false);
    }
    assert_eq!(BACKOFF_MAX_US, us);
    assert_eq!(BACKOFF_MIN_US, next_backoff(us, true));
}

#[test]
fn tick_activity_resets_the_loop_backoff() {
    // A do-nothing worker never reports activity, so the loop idles all
    // the way up to the cap.
    let mut lp = PollLoop::new(NullHandler::new(), DefWorkerFactory).unwrap();

    for _ in 0..10 {
        let did = lp.step(None).unwrap();
        assert!(!did);
    }
    assert_eq!(BACKOFF_MAX_US, lp.backoff_us());

    // A delivered message is activity: the next sleep is the minimum again.
    let did = lp.step(Some("wake".to_string())).unwrap();
    assert!(did);
    assert_eq!(BACKOFF_MIN_US, lp.backoff_us());

    lp.shutdown().unwrap();
}

#[test]
fn poll_loop_delivers_queued_message() {
    // Scenario: a worker whose receive forwards its input to the handler
    // observes a sent message, and shutting down afterwards succeeds.
    let mut lp = PollLoop::new(VecHandler::new(), EchoWorkerFactory).unwrap();

    let did = lp.step(Some("ping".to_string())).unwrap();
    assert!(did);

    let events = lp.worker_ref().handler_ref().events();
    assert_eq!(Ok("ping".to_string()), events[0]);

    lp.shutdown().unwrap();
}

#[test]
fn poll_loop_tick_produces_event_without_send() {
    // Scenario: a worker whose tick unconditionally reports activity and
    // forwards "tick" reaches the handler without any send.
    let mut lp = PollLoop::new(VecHandler::new(), EchoWorkerFactory).unwrap();

    let did = lp.step(None).unwrap();
    assert!(did);
    assert_eq!(BACKOFF_MIN_US, lp.backoff_us());

    let events = lp.worker_ref().handler_ref().events();
    assert!(events.len() >= 1);
    assert_eq!(Ok("tick".to_string()), events[0]);

    lp.shutdown().unwrap();
}

#[test]
fn poll_loop_keeps_queue_order() {
    let mut lp = PollLoop::new(VecHandler::new(), EchoWorkerFactory).unwrap();

    let msgs = ["first", "second", "third"];
    for m in &msgs {
        lp.step(Some(m.to_string())).unwrap();
    }

    // Every iteration also ticks, so queue deliveries interleave with tick
    // events; the queue-delivered messages keep their relative order.
    let events = lp.worker_ref().handler_ref().events();
    let queued: Vec<&Result<String, NetError>> =
        events.iter().filter(|e| *e != &Ok("tick".to_string())).collect();
    assert_eq!(msgs.len(), queued.len());
    for (i, m) in msgs.iter().enumerate() {
        assert_eq!(&Ok(m.to_string()), queued[i]);
    }

    lp.shutdown().unwrap();
}

#[test]
fn poll_loop_construction_failure_is_fatal() {
    // Scenario: a deterministically failing factory surfaces the failure
    // from construction itself; no loop state is left behind.
    match PollLoop::new(NullHandler::new(), FailingFactory) {
        Ok(_) => panic!("construction must fail"),
        Err(e) => assert_eq!(NetError::ConstructionFailure, e),
    }
}

#[test]
fn poll_loop_default_worker_send_and_shutdown() {
    let mut lp = PollLoop::new(NullHandler::new(), DefWorkerFactory).unwrap();

    let did = lp.step(Some("test".to_string())).unwrap();
    assert!(did);

    lp.shutdown().unwrap();
}

#[test]
fn worker_fault_is_routed_through_handler() {
    // A handler that rejects messages makes the forwarding worker's hooks
    // fail; the loop hands each failure back through the handler as an
    // error event, counts it as activity and keeps going.
    let mut lp = PollLoop::new(RejectingHandler::new(), EchoWorkerFactory).unwrap();

    let did = lp.step(Some("ping".to_string())).unwrap();
    assert!(did);
    assert_eq!(BACKOFF_MIN_US, lp.backoff_us());

    let did = lp.step(None).unwrap();
    assert!(did);

    let events = lp.worker_ref().handler_ref().events();
    assert_eq!(2, events.len());
    assert_eq!(Err(NetError::DeliveryFailure), events[0]);
    assert_eq!(Err(NetError::DeliveryFailure), events[1]);

    lp.shutdown().unwrap();
}

#[test]
fn unreportable_worker_fault_is_fatal() {
    // A broken transport that cannot even report its fault is the one
    // condition a driver may treat as fatal.
    let mut lp = PollLoop::new(NullHandler::new(), FailingWorkerFactory).unwrap();

    assert_eq!(Err(NetError::DeliveryFailure), lp.step(Some("test".to_string())));
    assert_eq!(Err(NetError::DeliveryFailure), lp.step(None));
    // A failed iteration leaves the backoff untouched.
    assert_eq!(BACKOFF_MIN_US, lp.backoff_us());

    lp.shutdown().unwrap();
}

#[test]
fn handler_records_error_events() {
    let mut h = VecHandler::new();
    h.handle(Err(NetError::DeliveryFailure)).unwrap();
    h.handle(Ok("after".to_string())).unwrap();

    let events = h.events();
    assert_eq!(Err(NetError::DeliveryFailure), events[0]);
    assert_eq!(Ok("after".to_string()), events[1]);
}
