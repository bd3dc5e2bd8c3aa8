//! The worker/connection capability set and the synchronous relay.
//!
//! A transport implements [`NetWorker`]; the owning side supplies a
//! [`NetHandler`] through which every inbound event escapes back to it, and
//! a [`NetWorkerFactory`] so that worker construction can be deferred to
//! whichever thread will own the worker.  [`NetConnectionRelay`] is the
//! same-thread driver: `send` delivers the message to the worker before it
//! returns.

use vstd::prelude::*;

use crate::error::{NetError, NetResult};

verus! {

/// The message envelope carried by `send` and `receive`.  The core never
/// inspects its contents; in this minimal form it is a raw text payload.
pub type JsonString = String;

/// What a handler saw in one invocation: either an inbound message or an
/// error event, abstracted to its mathematical value.
pub open spec fn event_view(r: NetResult<JsonString>) -> NetResult<Seq<char>> {
    match r {
        Ok(s) => Ok(s@),
        Err(e) => Err(e),
    }
}

/// The callback through which every inbound event reaches the owning side.
///
/// `observed()` is the history of events this handler has accepted, oldest
/// first; `handle` appends exactly the event it was invoked with, or leaves
/// the history unchanged when it reports an error.  `handle_ens` lets each
/// implementation state what else one invocation does to it.
pub trait NetHandler: Sized {
    spec fn observed(&self) -> Seq<NetResult<Seq<char>>>;

    spec fn handle_ens(pre: Self, post: Self, event: NetResult<Seq<char>>, r: NetResult<()>) -> bool;

    fn handle(&mut self, result: NetResult<JsonString>) -> (r: NetResult<()>)
        ensures
            Self::handle_ens(*old(self), *final(self), event_view(result), r),
            r is Ok ==> final(self).observed() == old(self).observed().push(event_view(result)),
            r is Err ==> final(self).observed() == old(self).observed(),
    ;
}

/// The transport-side driver.  A worker is exclusively owned by whatever
/// drives it — a relay on the caller's thread or a dedicated poll loop —
/// and its hooks are never called concurrently.
///
/// `delivered()` is the sequence of messages that `receive` has accepted,
/// oldest first.  `receive` appends exactly the message it was given (or
/// nothing, when it fails); `tick` performs background work but never
/// consumes a delivery; `report` turns a hook failure into an error event
/// for the handler; `destroy` releases the transport's resources and
/// consumes the worker.  The `*_ens` spec functions let each implementation
/// pin down what its hooks additionally do, e.g. which events they forward
/// to the handler they were constructed around.
///
/// The no-op behaviour that trivial workers share lives in
/// [`crate::workers::DefWorker`] rather than in default method bodies, so
/// that every implementation's hooks are verified against its own stated
/// behaviour.
pub trait NetWorker: Sized {
    spec fn delivered(&self) -> Seq<Seq<char>>;

    spec fn receive_ens(pre: Self, post: Self, data: Seq<char>, r: NetResult<()>) -> bool;

    spec fn tick_ens(pre: Self, post: Self, r: NetResult<bool>) -> bool;

    spec fn report_ens(pre: Self, post: Self, error: NetError, r: NetResult<()>) -> bool;

    spec fn destroy_ens(pre: Self, r: NetResult<()>) -> bool;

    /// Deliver one outbound application message to the transport.
    fn receive(&mut self, data: JsonString) -> (r: NetResult<()>)
        ensures
            Self::receive_ens(*old(self), *final(self), data@, r),
            r is Ok ==> final(self).delivered() == old(self).delivered().push(data@),
            r is Err ==> final(self).delivered() == old(self).delivered(),
    ;

    /// Give the transport a chance to perform background work; the result
    /// reports whether meaningful work occurred.
    fn tick(&mut self) -> (r: NetResult<bool>)
        ensures
            Self::tick_ens(*old(self), *final(self), r),
            final(self).delivered() == old(self).delivered(),
    ;

    /// Hand a failure of `receive` or `tick` back to the worker for
    /// delivery through its handler as an error-variant event, so that a
    /// transport fault becomes observable on the owning side instead of
    /// silently killing the connection.  A driver treats a failure of
    /// `report` itself as unrecoverable; reporting never consumes or
    /// creates a delivery.
    fn report(&mut self, error: NetError) -> (r: NetResult<()>)
        ensures
            Self::report_ens(*old(self), *final(self), error, r),
            final(self).delivered() == old(self).delivered(),
    ;

    /// Release the transport's resources; called exactly once.
    fn destroy(self) -> (r: NetResult<()>)
        ensures
            Self::destroy_ens(self, r),
    ;
}

/// Deferred construction of a worker bound to a handler, so that the
/// worker can be built on the thread that will own it while the caller
/// defines the result-handling logic up front.
pub trait NetWorkerFactory<H: NetHandler>: Sized {
    type Worker: NetWorker;

    spec fn new_ens(&self, handler: H, r: NetResult<Self::Worker>) -> bool;

    fn new(&self, handler: H) -> (r: NetResult<Self::Worker>)
        ensures
            self.new_ens(handler, r),
    ;
}

/// The uniform "send a message" surface, independent of whether the worker
/// is driven inline or by a dedicated thread.
pub trait NetConnection: Sized {
    spec fn send_ens(pre: Self, post: Self, data: Seq<char>, r: NetResult<()>) -> bool;

    fn send(&mut self, data: JsonString) -> (r: NetResult<()>)
        ensures
            Self::send_ens(*old(self), *final(self), data@, r),
    ;
}

/// A connection that drives its worker inline: `send` triggers an
/// immediate `receive` on the caller's thread, with no buffering.
pub struct NetConnectionRelay<W: NetWorker> {
    worker: W,
}

impl<W: NetWorker> NetConnectionRelay<W> {
    /// The worker this relay exclusively owns.
    pub closed spec fn worker_view(&self) -> W {
        self.worker
    }

    /// Borrows the owned worker, for inspection by the owning side.
    pub fn worker_ref(&self) -> (w: &W)
        ensures
            *w == self.worker_view(),
    {
        &self.worker
    }

    /// Builds the worker via the factory, on the calling thread, and wraps
    /// it; propagates the factory's construction failure.
    pub fn new<H: NetHandler, F: NetWorkerFactory<H, Worker = W>>(handler: H, worker_factory: F)
        -> (r: NetResult<Self>)
        ensures
            match r {
                Ok(relay) => worker_factory.new_ens(handler, Ok(relay.worker_view())),
                Err(e) => worker_factory.new_ens(handler, Err(e)),
            },
    {
        match worker_factory.new(handler) {
            Ok(worker) => Ok(NetConnectionRelay { worker }),
            Err(e) => Err(e),
        }
    }

    /// Drives one explicit poll of the worker, on the caller's schedule.
    pub fn tick(&mut self) -> (r: NetResult<bool>)
        ensures
            W::tick_ens(old(self).worker_view(), final(self).worker_view(), r),
            final(self).worker_view().delivered() == old(self).worker_view().delivered(),
    {
        self.worker.tick()
    }

    /// Destroys the owned worker, consuming the relay; no further `send`
    /// is possible afterwards.
    pub fn destroy(self) -> (r: NetResult<()>)
        ensures
            W::destroy_ens(self.worker_view(), r),
    {
        self.worker.destroy()
    }
}

impl<W: NetWorker> NetConnection for NetConnectionRelay<W> {
    /// One `send` is one `receive`: on success the worker has accepted
    /// exactly this message, appended after everything sent before it (so
    /// any sequence of sends is delivered in sending order), and it has
    /// already done so by the time `send` returns; on failure the worker's
    /// delivery history is unchanged and the worker's own error is handed
    /// back.
    open spec fn send_ens(pre: Self, post: Self, data: Seq<char>, r: NetResult<()>) -> bool {
        &&& W::receive_ens(pre.worker_view(), post.worker_view(), data, r)
        &&& r is Ok ==> post.worker_view().delivered() == pre.worker_view().delivered().push(data)
        &&& r is Err ==> post.worker_view().delivered() == pre.worker_view().delivered()
    }

    fn send(&mut self, data: JsonString) -> (r: NetResult<()>) {
        self.worker.receive(data)
    }
}

/// The delivery history after a batch of messages is delivered one at a
/// time, each appended as one `receive` (or one successful `send`) appends
/// it.
pub open spec fn deliver_all(log: Seq<Seq<char>>, msgs: Seq<Seq<char>>) -> Seq<Seq<char>>
    decreases msgs.len(),
{
    if msgs.len() == 0 {
        log
    } else {
        deliver_all(log.push(msgs[0]), msgs.skip(1))
    }
}

/// Law (FIFO delivery): delivering any batch of messages one at a time
/// appends the whole batch to the history in exactly the order it was
/// sent.  A successful `NetConnectionRelay::send`, a `NetWorker::receive`
/// and a `PollLoop::step` with a dequeued message each ensure one such
/// step — `delivered` grows by `push` — so any sequence of sends on a
/// single connection, driven either way, reaches the worker in sending
/// order.
pub proof fn lemma_deliver_all_fifo(log: Seq<Seq<char>>, msgs: Seq<Seq<char>>)
    ensures
        deliver_all(log, msgs) == log + msgs,
        deliver_all(log, msgs).len() == log.len() + msgs.len(),
        forall|i: int|
            0 <= i < msgs.len() ==> deliver_all(log, msgs)[log.len() + i] == msgs[i],
    decreases msgs.len(),
{
    if msgs.len() == 0 {
        assert(log + msgs =~= log);
    } else {
        lemma_deliver_all_fifo(log.push(msgs[0]), msgs.skip(1));
        assert(log.push(msgs[0]) + msgs.skip(1) =~= log + msgs);
    }
}

} // verus!
