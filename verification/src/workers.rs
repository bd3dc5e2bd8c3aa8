//! Concrete workers, handlers and factories.
//!
//! These are the in-process transports of the core itself: a do-nothing
//! worker, an echoing worker that forwards everything to its handler, and
//! deterministically failing counterparts, together with handlers that
//! discard, record or reject the events they are given.  They serve as reference
//! implementations of the capability set, as composition points for
//! in-process pass-through relaying, and as test doubles.

use vstd::prelude::*;

use crate::error::{NetError, NetResult};
use crate::net_connection::{event_view, JsonString, NetHandler, NetWorker, NetWorkerFactory};

verus! {

broadcast use vstd::string::group_string_axioms;

/// A handler that accepts every event and discards it.  Its history of
/// invocations is tracked in ghost state only.
pub struct NullHandler {
    log: Ghost<Seq<NetResult<Seq<char>>>>,
}

impl NullHandler {
    pub fn new() -> (h: Self)
        ensures
            h.observed() == Seq::<NetResult<Seq<char>>>::empty(),
    {
        NullHandler { log: Ghost(Seq::empty()) }
    }
}

impl NetHandler for NullHandler {
    closed spec fn observed(&self) -> Seq<NetResult<Seq<char>>> {
        self.log@
    }

    /// Never fails; every event is accepted and dropped.
    open spec fn handle_ens(pre: Self, post: Self, event: NetResult<Seq<char>>, r: NetResult<()>) -> bool {
        &&& r is Ok
        &&& post.observed() == pre.observed().push(event)
    }

    fn handle(&mut self, result: NetResult<JsonString>) -> (r: NetResult<()>) {
        self.log = Ghost(self.log@.push(event_view(result)));
        Ok(())
    }
}

/// A handler that records every event it is given, in order.
pub struct VecHandler {
    events: Vec<NetResult<JsonString>>,
}

impl VecHandler {
    pub fn new() -> (h: Self)
        ensures
            h.observed() == Seq::<NetResult<Seq<char>>>::empty(),
    {
        let h = VecHandler { events: Vec::new() };
        proof {
            assert(h.observed() =~= Seq::<NetResult<Seq<char>>>::empty());
        }
        h
    }

    /// The recorded events, oldest first; they are exactly the observed
    /// history.
    pub fn events(&self) -> (v: &Vec<NetResult<JsonString>>)
        ensures
            v@.map_values(|e: NetResult<JsonString>| event_view(e)) == self.observed(),
            v@.len() == self.observed().len(),
    {
        &self.events
    }
}

impl NetHandler for VecHandler {
    closed spec fn observed(&self) -> Seq<NetResult<Seq<char>>> {
        self.events@.map_values(|e: NetResult<JsonString>| event_view(e))
    }

    /// Never fails; every event is appended to the record.
    open spec fn handle_ens(pre: Self, post: Self, event: NetResult<Seq<char>>, r: NetResult<()>) -> bool {
        &&& r is Ok
        &&& post.observed() == pre.observed().push(event)
    }

    fn handle(&mut self, result: NetResult<JsonString>) -> (r: NetResult<()>) {
        let ghost e = event_view(result);
        self.events.push(result);
        proof {
            assert(self.observed() =~= old(self).observed().push(e));
        }
        Ok(())
    }
}

/// A handler that rejects every message event but accepts (and records)
/// every error event: the pathological consumer that makes a forwarding
/// worker's hooks fail, used to exercise a driver's error routing.
pub struct RejectingHandler {
    events: Vec<NetResult<JsonString>>,
}

impl RejectingHandler {
    pub fn new() -> (h: Self)
        ensures
            h.observed() == Seq::<NetResult<Seq<char>>>::empty(),
    {
        let h = RejectingHandler { events: Vec::new() };
        proof {
            assert(h.observed() =~= Seq::<NetResult<Seq<char>>>::empty());
        }
        h
    }

    /// The recorded events, oldest first; they are exactly the observed
    /// history, and every one of them is an error event.
    pub fn events(&self) -> (v: &Vec<NetResult<JsonString>>)
        ensures
            v@.map_values(|e: NetResult<JsonString>| event_view(e)) == self.observed(),
            v@.len() == self.observed().len(),
    {
        &self.events
    }
}

impl NetHandler for RejectingHandler {
    closed spec fn observed(&self) -> Seq<NetResult<Seq<char>>> {
        self.events@.map_values(|e: NetResult<JsonString>| event_view(e))
    }

    /// Rejects every message with a delivery failure; accepts every error
    /// event and appends it to the record.
    open spec fn handle_ens(pre: Self, post: Self, event: NetResult<Seq<char>>, r: NetResult<
        (),
    >) -> bool {
        match event {
            Ok(_) => {
                &&& r == Err::<(), NetError>(NetError::DeliveryFailure)
                &&& post.observed() == pre.observed()
            },
            Err(_) => {
                &&& r is Ok
                &&& post.observed() == pre.observed().push(event)
            },
        }
    }

    fn handle(&mut self, result: NetResult<JsonString>) -> (r: NetResult<()>) {
        match &result {
            Ok(_) => Err(NetError::DeliveryFailure),
            Err(_) => {
                let ghost e = event_view(result);
                self.events.push(result);
                proof {
                    assert(self.observed() =~= old(self).observed().push(e));
                }
                Ok(())
            },
        }
    }
}

/// A worker whose hooks all succeed and do nothing: `receive` accepts and
/// drops the message, `tick` reports that no work occurred, `destroy` has
/// nothing to release.  Its delivery history is tracked in ghost state.
pub struct DefWorker {
    log: Ghost<Seq<Seq<char>>>,
}

impl DefWorker {
    pub fn new() -> (w: Self)
        ensures
            w.delivered() == Seq::<Seq<char>>::empty(),
    {
        DefWorker { log: Ghost(Seq::empty()) }
    }
}

impl NetWorker for DefWorker {
    closed spec fn delivered(&self) -> Seq<Seq<char>> {
        self.log@
    }

    /// Always succeeds; the message goes nowhere.
    open spec fn receive_ens(pre: Self, post: Self, data: Seq<char>, r: NetResult<()>) -> bool {
        &&& r is Ok
        &&& post.delivered() == pre.delivered().push(data)
    }

    /// Always reports that no meaningful work occurred.
    open spec fn tick_ens(pre: Self, post: Self, r: NetResult<bool>) -> bool {
        &&& r == Ok::<bool, NetError>(false)
        &&& post.delivered() == pre.delivered()
    }

    /// Accepts the report and drops it: with no handler there is nowhere
    /// to deliver, and the hooks of this worker never fail anyway.
    open spec fn report_ens(pre: Self, post: Self, error: NetError, r: NetResult<()>) -> bool {
        r is Ok
    }

    /// Always succeeds.
    open spec fn destroy_ens(pre: Self, r: NetResult<()>) -> bool {
        r is Ok
    }

    fn receive(&mut self, data: JsonString) -> (r: NetResult<()>) {
        self.log = Ghost(self.log@.push(data@));
        Ok(())
    }

    fn tick(&mut self) -> (r: NetResult<bool>) {
        Ok(false)
    }

    fn report(&mut self, _error: NetError) -> (r: NetResult<()>) {
        Ok(())
    }

    fn destroy(self) -> (r: NetResult<()>) {
        Ok(())
    }
}

/// Builds a [`DefWorker`], dropping the handler: a do-nothing worker never
/// produces an event.
pub struct DefWorkerFactory;

impl<H: NetHandler> NetWorkerFactory<H> for DefWorkerFactory {
    type Worker = DefWorker;

    open spec fn new_ens(&self, handler: H, r: NetResult<DefWorker>) -> bool {
        match r {
            Ok(w) => w.delivered() == Seq::<Seq<char>>::empty(),
            Err(_) => false,
        }
    }

    fn new(&self, _handler: H) -> (r: NetResult<DefWorker>) {
        Ok(DefWorker::new())
    }
}

/// A worker that forwards everything to its handler: `receive` hands the
/// message on unchanged, and every `tick` forwards the literal event
/// `"tick"` and reports activity.  It is the in-process pass-through
/// transport and the reference for handler-facing behaviour.
pub struct EchoWorker<H: NetHandler> {
    handler: H,
    log: Ghost<Seq<Seq<char>>>,
}

impl<H: NetHandler> EchoWorker<H> {
    /// The handler this worker was constructed around.
    pub closed spec fn handler_view(&self) -> H {
        self.handler
    }

    /// Borrows the owned handler, for inspection by the owning side.
    pub fn handler_ref(&self) -> (h: &H)
        ensures
            *h == self.handler_view(),
    {
        &self.handler
    }

    pub fn new(handler: H) -> (w: Self)
        ensures
            w.handler_view() == handler,
            w.delivered() == Seq::<Seq<char>>::empty(),
    {
        EchoWorker { handler, log: Ghost(Seq::empty()) }
    }
}

impl<H: NetHandler> NetWorker for EchoWorker<H> {
    closed spec fn delivered(&self) -> Seq<Seq<char>> {
        self.log@
    }

    /// Succeeds exactly when the handler accepts the forwarded message;
    /// on success the handler has observed it.
    open spec fn receive_ens(pre: Self, post: Self, data: Seq<char>, r: NetResult<()>) -> bool {
        match r {
            Ok(_) => {
                &&& H::handle_ens(pre.handler_view(), post.handler_view(), Ok(data), Ok(()))
                &&& post.handler_view().observed() == pre.handler_view().observed().push(Ok(data))
                &&& post.delivered() == pre.delivered().push(data)
            },
            Err(e) => {
                &&& H::handle_ens(pre.handler_view(), post.handler_view(), Ok(data), Err(e))
                &&& post.handler_view().observed() == pre.handler_view().observed()
                &&& post.delivered() == pre.delivered()
            },
        }
    }

    /// Unconditionally forwards the event `"tick"` and, when the handler
    /// accepts it, reports that work occurred; it fails exactly when the
    /// handler rejected the event.
    open spec fn tick_ens(pre: Self, post: Self, r: NetResult<bool>) -> bool {
        match r {
            Ok(b) => {
                &&& b
                &&& H::handle_ens(pre.handler_view(), post.handler_view(), Ok("tick"@), Ok(()))
                &&& post.handler_view().observed() == pre.handler_view().observed().push(
                    Ok("tick"@),
                )
            },
            Err(e) => {
                &&& H::handle_ens(pre.handler_view(), post.handler_view(), Ok("tick"@), Err(e))
                &&& post.handler_view().observed() == pre.handler_view().observed()
            },
        }
    }

    /// Forwards the fault to the handler as an error-variant event; it
    /// fails exactly when the handler rejected that event too.
    open spec fn report_ens(pre: Self, post: Self, error: NetError, r: NetResult<()>) -> bool {
        match r {
            Ok(_) => {
                &&& H::handle_ens(pre.handler_view(), post.handler_view(), Err(error), Ok(()))
                &&& post.handler_view().observed() == pre.handler_view().observed().push(
                    Err(error),
                )
            },
            Err(e) => {
                &&& H::handle_ens(pre.handler_view(), post.handler_view(), Err(error), Err(e))
                &&& post.handler_view().observed() == pre.handler_view().observed()
            },
        }
    }

    /// Has no transport resources to release; always succeeds.
    open spec fn destroy_ens(pre: Self, r: NetResult<()>) -> bool {
        r is Ok
    }

    fn receive(&mut self, data: JsonString) -> (r: NetResult<()>) {
        let ghost d = data@;
        let rr = self.handler.handle(Ok(data));
        match rr {
            Ok(u) => {
                proof {
                    // A unit result carries no data: success is `Ok(())`.
                    assert(rr == Ok::<(), NetError>(u));
                }
                self.log = Ghost(self.log@.push(d));
                Ok(())
            },
            Err(e) => Err(e),
        }
    }

    fn tick(&mut self) -> (r: NetResult<bool>) {
        let rr = self.handler.handle(Ok("tick".to_string()));
        match rr {
            Ok(u) => {
                proof {
                    assert(rr == Ok::<(), NetError>(u));
                }
                Ok(true)
            },
            Err(e) => Err(e),
        }
    }

    fn report(&mut self, error: NetError) -> (r: NetResult<()>) {
        let rr = self.handler.handle(Err(error));
        match rr {
            Ok(u) => {
                proof {
                    assert(rr == Ok::<(), NetError>(u));
                }
                Ok(())
            },
            Err(e) => Err(e),
        }
    }

    fn destroy(self) -> (r: NetResult<()>) {
        Ok(())
    }
}

/// Builds an [`EchoWorker`] around the supplied handler.
pub struct EchoWorkerFactory;

impl<H: NetHandler> NetWorkerFactory<H> for EchoWorkerFactory {
    type Worker = EchoWorker<H>;

    open spec fn new_ens(&self, handler: H, r: NetResult<EchoWorker<H>>) -> bool {
        match r {
            Ok(w) => {
                &&& w.handler_view() == handler
                &&& w.delivered() == Seq::<Seq<char>>::empty()
            },
            Err(_) => false,
        }
    }

    fn new(&self, handler: H) -> (r: NetResult<EchoWorker<H>>) {
        Ok(EchoWorker::new(handler))
    }
}

/// A worker whose transport is broken: both `receive` and `tick` report a
/// delivery failure and leave everything unchanged.
pub struct FailingWorker;

impl FailingWorker {
    pub fn new() -> (w: Self)
        ensures
            w.delivered() == Seq::<Seq<char>>::empty(),
    {
        FailingWorker
    }
}

impl NetWorker for FailingWorker {
    closed spec fn delivered(&self) -> Seq<Seq<char>> {
        Seq::empty()
    }

    /// Always fails; no message is ever accepted.
    open spec fn receive_ens(pre: Self, post: Self, data: Seq<char>, r: NetResult<()>) -> bool {
        r == Err::<(), NetError>(NetError::DeliveryFailure)
    }

    /// Always fails.
    open spec fn tick_ens(pre: Self, post: Self, r: NetResult<bool>) -> bool {
        r == Err::<bool, NetError>(NetError::DeliveryFailure)
    }

    /// Even the error report fails: this worker models a connection whose
    /// owning side can no longer be told anything.
    open spec fn report_ens(pre: Self, post: Self, error: NetError, r: NetResult<()>) -> bool {
        r == Err::<(), NetError>(NetError::DeliveryFailure)
    }

    /// Releasing a broken transport still succeeds.
    open spec fn destroy_ens(pre: Self, r: NetResult<()>) -> bool {
        r is Ok
    }

    fn receive(&mut self, _data: JsonString) -> (r: NetResult<()>) {
        Err(NetError::DeliveryFailure)
    }

    fn tick(&mut self) -> (r: NetResult<bool>) {
        Err(NetError::DeliveryFailure)
    }

    fn report(&mut self, _error: NetError) -> (r: NetResult<()>) {
        Err(NetError::DeliveryFailure)
    }

    fn destroy(self) -> (r: NetResult<()>) {
        Ok(())
    }
}

/// Builds a [`FailingWorker`], dropping the handler.
pub struct FailingWorkerFactory;

impl<H: NetHandler> NetWorkerFactory<H> for FailingWorkerFactory {
    type Worker = FailingWorker;

    open spec fn new_ens(&self, handler: H, r: NetResult<FailingWorker>) -> bool {
        r is Ok
    }

    fn new(&self, _handler: H) -> (r: NetResult<FailingWorker>) {
        Ok(FailingWorker::new())
    }
}

/// A factory that fails deterministically: no worker is ever built, no
/// resources are left behind, and construction of a relay around it
/// surfaces the failure synchronously.
pub struct FailingFactory;

impl<H: NetHandler> NetWorkerFactory<H> for FailingFactory {
    type Worker = DefWorker;

    open spec fn new_ens(&self, handler: H, r: NetResult<DefWorker>) -> bool {
        r == Err::<DefWorker, NetError>(NetError::ConstructionFailure)
    }

    fn new(&self, _handler: H) -> (r: NetResult<DefWorker>) {
        Err(NetError::ConstructionFailure)
    }
}


} // verus!
