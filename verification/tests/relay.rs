//! Tests of the synchronous relay and the worker/handler capability set.

use net_connection::error::NetError;
use net_connection::net_connection::{NetConnection, NetConnectionRelay};
use net_connection::workers::{
    DefWorkerFactory, EchoWorkerFactory, FailingFactory, FailingWorkerFactory, NullHandler,
    VecHandler,
};

#[test]
fn it_can_defaults() {
    let mut con = NetConnectionRelay::new(NullHandler::new(), DefWorkerFactory).unwrap();

    con.send("test".to_string()).unwrap();
    con.tick().unwrap();
    con.destroy().unwrap();
}

#[test]
fn it_invokes_connection_relay() {
    let mut con = NetConnectionRelay::new(VecHandler::new(), EchoWorkerFactory).unwrap();

    con.send("test".to_string()).unwrap();

    let events = con.worker_ref().handler_ref().events();
    assert_eq!(1, events.len());
    assert_eq!(Ok("test".to_string()), events[0]);

    con.destroy().unwrap();
}

#[test]
fn it_can_tick() {
    let mut con = NetConnectionRelay::new(VecHandler::new(), EchoWorkerFactory).unwrap();

    let did = con.tick().unwrap();
    assert!(did);

    let events = con.worker_ref().handler_ref().events();
    assert_eq!(1, events.len());
    assert_eq!(Ok("tick".to_string()), events[0]);

    con.destroy().unwrap();
}

#[test]
fn send_is_synchronous() {
    // Immediately after each send returns, the corresponding receive has
    // already run on this thread: the handler has the message before the
    // next statement executes.
    let mut con = NetConnectionRelay::new(VecHandler::new(), EchoWorkerFactory).unwrap();

    con.send("one".to_string()).unwrap();
    assert_eq!(1, con.worker_ref().handler_ref().events().len());

    con.send("two".to_string()).unwrap();
    assert_eq!(2, con.worker_ref().handler_ref().events().len());

    con.destroy().unwrap();
}

#[test]
fn sends_deliver_in_order() {
    let mut con = NetConnectionRelay::new(VecHandler::new(), EchoWorkerFactory).unwrap();

    let msgs = ["alpha", "beta", "gamma", "delta"];
    for m in &msgs {
        con.send(m.to_string()).unwrap();
    }

    let events = con.worker_ref().handler_ref().events();
    assert_eq!(msgs.len(), events.len());
    for (i, m) in msgs.iter().enumerate() {
        assert_eq!(Ok(m.to_string()), events[i]);
    }

    con.destroy().unwrap();
}

#[test]
fn failing_factory_reports_construction_failure() {
    match NetConnectionRelay::new(NullHandler::new(), FailingFactory) {
        Ok(_) => panic!("construction must fail"),
        Err(e) => assert_eq!(NetError::ConstructionFailure, e),
    }
}

#[test]
fn failing_worker_send_reports_delivery_failure() {
    let mut con = NetConnectionRelay::new(NullHandler::new(), FailingWorkerFactory).unwrap();

    assert_eq!(Err(NetError::DeliveryFailure), con.send("test".to_string()));
    assert_eq!(Err(NetError::DeliveryFailure), con.tick().map(|_| ()));

    con.destroy().unwrap();
}
