//! The adaptive poll loop that a dedicated thread runs for a connection.
//!
//! Each iteration tries to dequeue one outbound message, gives the worker a
//! `tick`, and then sleeps.  The sleep duration starts at
//! [`BACKOFF_MIN_US`], doubles after every iteration in which nothing
//! happened, and is capped at [`BACKOFF_MAX_US`]; any activity resets it to
//! the minimum.  Busy connections are thus serviced at near-zero latency
//! while idle ones decay toward a bounded polling cost.
//!
//! [`PollLoop`] holds the per-iteration state (the worker and the current
//! backoff).  The owning thread performs the outside work — dequeueing from
//! its channel, sleeping, checking its shutdown flag — and calls
//! [`PollLoop::step`] for everything that is decided here.

use vstd::prelude::*;

use crate::error::{NetError, NetResult};
use crate::net_connection::{JsonString, NetHandler, NetWorker, NetWorkerFactory};

verus! {

/// Idle sleep, in microseconds, right after construction or any activity.
pub const BACKOFF_MIN_US: u64 = 100;

/// Ceiling, in microseconds, on the idle sleep of a fully idle connection.
pub const BACKOFF_MAX_US: u64 = 10_000;

/// The backoff that follows `us` after one iteration: reset to the minimum
/// when the iteration did something, otherwise doubled and capped.
pub open spec fn next_backoff_spec(us: u64, did_something: bool) -> u64 {
    if did_something {
        BACKOFF_MIN_US
    } else if us > BACKOFF_MAX_US / 2 {
        BACKOFF_MAX_US
    } else {
        (2 * us) as u64
    }
}

/// Computes the idle backoff for the next iteration.
pub fn next_backoff(us: u64, did_something: bool) -> (r: u64)
    ensures
        r == next_backoff_spec(us, did_something),
{
    if did_something {
        BACKOFF_MIN_US
    } else if us > BACKOFF_MAX_US / 2 {
        BACKOFF_MAX_US
    } else {
        2 * us
    }
}

/// The backoff after `n` iterations in which nothing happened, starting
/// from the minimum.
pub open spec fn idle_backoff(n: nat) -> u64
    decreases n,
{
    if n == 0 {
        BACKOFF_MIN_US
    } else {
        next_backoff_spec(idle_backoff((n - 1) as nat), false)
    }
}

/// Law: an iteration that did something resets the backoff to the minimum,
/// whatever it had escalated to.
pub proof fn lemma_backoff_reset(us: u64)
    ensures
        next_backoff_spec(us, true) == BACKOFF_MIN_US,
{
}

/// Law: absent activity the backoff never decreases and never exceeds the
/// ceiling, and it stays at or above the minimum.
pub proof fn lemma_backoff_idle_bounds(us: u64)
    requires
        BACKOFF_MIN_US <= us <= BACKOFF_MAX_US,
    ensures
        us <= next_backoff_spec(us, false) <= BACKOFF_MAX_US,
        BACKOFF_MIN_US <= next_backoff_spec(us, false),
{
}

/// Law: every point of the idle-backoff sequence lies between the minimum
/// and the ceiling.
pub proof fn lemma_idle_backoff_in_range(n: nat)
    ensures
        BACKOFF_MIN_US <= idle_backoff(n) <= BACKOFF_MAX_US,
    decreases n,
{
    if n > 0 {
        lemma_idle_backoff_in_range((n - 1) as nat);
        lemma_backoff_idle_bounds(idle_backoff((n - 1) as nat));
    }
}

/// Law: the idle-backoff sequence is monotonically non-decreasing.
pub proof fn lemma_idle_backoff_monotone(n: nat)
    ensures
        idle_backoff(n) <= idle_backoff(n + 1),
{
    lemma_idle_backoff_in_range(n);
    lemma_backoff_idle_bounds(idle_backoff(n));
    assert(idle_backoff(n + 1) == next_backoff_spec(idle_backoff(n), false));
}

/// Either the tick succeeded outright, or its failure was delivered
/// through the worker's report hook as an error event.
pub open spec fn tick_or_reported<W: NetWorker>(pre: W, post: W) -> bool {
    ||| exists|b: bool| #![auto] W::tick_ens(pre, post, Ok(b))
    ||| exists|mid: W, e: NetError|
        #![auto]
        W::tick_ens(pre, mid, Err(e)) && W::report_ens(mid, post, e, Ok(()))
}

/// What an iteration that reported success did to the worker: either the
/// dequeued message (if any) was delivered and the tick ran, or a hook
/// failed and the failure reached the handler through the report hook.
pub open spec fn step_ok_ens<W: NetWorker>(
    pre: W,
    post: W,
    inbound: Option<Seq<char>>,
    did: bool,
) -> bool {
    match inbound {
        Some(m) => {
            &&& did
            &&& {
                ||| {
                    &&& post.delivered() == pre.delivered().push(m)
                    &&& exists|mid: W|
                        #![auto]
                        W::receive_ens(pre, mid, m, Ok(())) && tick_or_reported::<W>(mid, post)
                }
                ||| {
                    &&& post.delivered() == pre.delivered()
                    &&& exists|mid: W, e: NetError|
                        #![auto]
                        W::receive_ens(pre, mid, m, Err(e)) && W::report_ens(mid, post, e, Ok(()))
                }
            }
        },
        None => {
            &&& post.delivered() == pre.delivered()
            &&& {
                ||| W::tick_ens(pre, post, Ok(did))
                ||| (did && exists|mid: W, e: NetError|
                    #![auto]
                    W::tick_ens(pre, mid, Err(e)) && W::report_ens(mid, post, e, Ok(())))
            }
        },
    }
}

/// What a failed iteration did: a hook failed and even the report of that
/// failure was rejected, so the connection can no longer tell its owner
/// anything.
pub open spec fn step_err_ens<W: NetWorker>(
    pre: W,
    post: W,
    inbound: Option<Seq<char>>,
    e2: NetError,
) -> bool {
    match inbound {
        Some(m) => {
            ||| exists|mid: W, e: NetError|
                #![auto]
                W::receive_ens(pre, mid, m, Err(e)) && W::report_ens(mid, post, e, Err(e2))
            ||| exists|mid: W, midt: W, e: NetError|
                #![auto]
                {
                    &&& W::receive_ens(pre, mid, m, Ok(()))
                    &&& W::tick_ens(mid, midt, Err(e))
                    &&& W::report_ens(midt, post, e, Err(e2))
                }
        },
        None => exists|mid: W, e: NetError|
            #![auto]
            W::tick_ens(pre, mid, Err(e)) && W::report_ens(mid, post, e, Err(e2)),
    }
}

/// The dequeued message, abstracted to its mathematical value.
pub open spec fn inbound_view(inbound: Option<JsonString>) -> Option<Seq<char>> {
    match inbound {
        Some(m) => Some(m@),
        None => None,
    }
}

/// The state one iteration of the poll loop carries to the next: the
/// exclusively owned worker and the current idle backoff.
///
/// The owning thread repeats: try to dequeue one outbound message from its
/// channel, call [`PollLoop::step`] with it, sleep for
/// [`PollLoop::backoff_us`] microseconds, and exit when its shutdown flag
/// has been cleared, finishing with [`PollLoop::shutdown`].  Everything
/// except the dequeue, the sleep and the flag is decided here.
pub struct PollLoop<W: NetWorker> {
    worker: W,
    backoff_us: u64,
}

impl<W: NetWorker> PollLoop<W> {
    /// The worker this loop exclusively owns.
    pub closed spec fn worker_view(&self) -> W {
        self.worker
    }

    /// The current idle backoff, in microseconds.
    pub closed spec fn backoff(&self) -> u64 {
        self.backoff_us
    }

    /// The backoff always lies between the minimum and the ceiling.
    pub open spec fn wf(&self) -> bool {
        BACKOFF_MIN_US <= self.backoff() <= BACKOFF_MAX_US
    }

    /// Builds the worker via the factory — on the thread that runs the
    /// loop, for transports whose resources cannot cross threads — and
    /// starts at the minimum backoff.  A construction failure is
    /// unrecoverable: no worker means no loop should run.
    pub fn new<H: NetHandler, F: NetWorkerFactory<H, Worker = W>>(handler: H, worker_factory: F)
        -> (r: NetResult<Self>)
        ensures
            match r {
                Ok(lp) => {
                    &&& lp.wf()
                    &&& lp.backoff() == BACKOFF_MIN_US
                    &&& worker_factory.new_ens(handler, Ok(lp.worker_view()))
                },
                Err(e) => worker_factory.new_ens(handler, Err(e)),
            },
    {
        match worker_factory.new(handler) {
            Ok(worker) => Ok(PollLoop { worker, backoff_us: BACKOFF_MIN_US }),
            Err(e) => Err(e),
        }
    }

    /// Borrows the owned worker, for inspection by the owning side.
    pub fn worker_ref(&self) -> (w: &W)
        ensures
            *w == self.worker_view(),
    {
        &self.worker
    }

    /// How long the owning thread should sleep before the next iteration.
    pub fn backoff_us(&self) -> (us: u64)
        ensures
            us == self.backoff(),
    {
        self.backoff_us
    }

    /// One loop iteration: deliver the dequeued message, if any, to the
    /// worker, give the worker its unconditional `tick`, and adapt the
    /// backoff — reset to the minimum on any activity, doubled and capped
    /// otherwise.  A failure of `receive` or `tick` does not end the
    /// iteration: it is handed back to the worker's report hook for
    /// delivery through the handler as an error event, which counts as
    /// activity, and the iteration still reports success.  Only when even
    /// that report is rejected does `step` fail, with the backoff
    /// unchanged; the driver then has no way left to reach the owning
    /// side and may terminate.
    pub fn step(&mut self, inbound: Option<JsonString>) -> (r: NetResult<bool>)
        requires
            old(self).wf(),
        ensures
            final(self).wf(),
            match r {
                Ok(did) => {
                    &&& final(self).backoff() == next_backoff_spec(old(self).backoff(), did)
                    &&& (did ==> final(self).backoff() == BACKOFF_MIN_US)
                    &&& (!did ==> old(self).backoff() <= final(self).backoff())
                    &&& step_ok_ens::<W>(
                        old(self).worker_view(),
                        final(self).worker_view(),
                        inbound_view(inbound),
                        did,
                    )
                },
                Err(e2) => {
                    &&& final(self).backoff() == old(self).backoff()
                    &&& match inbound {
                        Some(m) => final(self).worker_view().delivered() == old(
                            self,
                        ).worker_view().delivered() || final(self).worker_view().delivered() == old(
                            self,
                        ).worker_view().delivered().push(m@),
                        None => final(self).worker_view().delivered() == old(
                            self,
                        ).worker_view().delivered(),
                    }
                    &&& step_err_ens::<W>(
                        old(self).worker_view(),
                        final(self).worker_view(),
                        inbound_view(inbound),
                        e2,
                    )
                },
            },
    {
        let mut did_something = false;
        let had_inbound = inbound.is_some();
        let ghost mut msg: Seq<char> = Seq::empty();
        let ghost mut mid: W = self.worker;
        match inbound {
            Some(data) => {
                proof {
                    msg = data@;
                }
                let rcv = self.worker.receive(data);
                proof {
                    mid = self.worker;
                }
                match rcv {
                    Ok(u) => {
                        proof {
                            // A unit result carries no data, so succeeding
                            // at all means returning exactly `Ok(())`.
                            assert(rcv == Ok::<(), NetError>(u));
                        }
                        did_something = true;
                    },
                    Err(e) => {
                        // The delivery failed: hand the fault to the
                        // handler as an error event and carry on.
                        let rep = self.worker.report(e);
                        match rep {
                            Ok(u2) => {
                                proof {
                                    assert(rep == Ok::<(), NetError>(u2));
                                    assert(W::receive_ens(old(self).worker, mid, msg, Err(e))
                                        && W::report_ens(mid, self.worker, e, Ok(())));
                                }
                                self.backoff_us = next_backoff(self.backoff_us, true);
                                return Ok(true);
                            },
                            Err(e2) => {
                                proof {
                                    assert(W::receive_ens(old(self).worker, mid, msg, Err(e))
                                        && W::report_ens(mid, self.worker, e, Err(e2)));
                                }
                                return Err(e2);
                            },
                        }
                    },
                }
            },
            None => {},
        }
        let ghost tick_pre = self.worker;
        let ghost mut tick_report: bool = false;
        let tk = self.worker.tick();
        let ghost midt = self.worker;
        match tk {
            Ok(ticked) => {
                if ticked {
                    did_something = true;
                }
                proof {
                    tick_report = ticked;
                }
            },
            Err(e) => {
                // Background work failed: report it the same way.
                let rep = self.worker.report(e);
                match rep {
                    Ok(u2) => {
                        proof {
                            assert(rep == Ok::<(), NetError>(u2));
                            assert(W::tick_ens(tick_pre, midt, Err(e))
                                && W::report_ens(midt, self.worker, e, Ok(())));
                            if had_inbound {
                                assert(W::receive_ens(old(self).worker, mid, msg, Ok(())));
                                assert(tick_or_reported::<W>(mid, self.worker));
                            }
                        }
                        self.backoff_us = next_backoff(self.backoff_us, true);
                        return Ok(true);
                    },
                    Err(e2) => {
                        proof {
                            assert(W::tick_ens(tick_pre, midt, Err(e))
                                && W::report_ens(midt, self.worker, e, Err(e2)));
                            if had_inbound {
                                assert(W::receive_ens(old(self).worker, mid, msg, Ok(())));
                            }
                        }
                        return Err(e2);
                    },
                }
            },
        }
        self.backoff_us = next_backoff(self.backoff_us, did_something);
        proof {
            if had_inbound {
                assert(W::receive_ens(old(self).worker, mid, msg, Ok(()))
                    && W::tick_ens(mid, self.worker, Ok(tick_report)));
                assert(tick_or_reported::<W>(mid, self.worker));
            }
        }
        Ok(did_something)
    }

    /// Ends the loop's life: destroys the owned worker, exactly once,
    /// consuming the loop state.
    pub fn shutdown(self) -> (r: NetResult<()>)
        ensures
            W::destroy_ens(self.worker_view(), r),
    {
        self.worker.destroy()
    }
}

/// Law: the idle-backoff sequence is exactly 100, 200, 400, ... doubling
/// until it pins at the 10 ms ceiling, which it reaches by the eighth
/// iteration and never leaves.
pub proof fn lemma_idle_backoff_doubles_then_caps(n: nat)
    ensures
        idle_backoff(n) as nat == if n < 7 {
            (BACKOFF_MIN_US * vstd::arithmetic::power2::pow2(n)) as nat
        } else {
            BACKOFF_MAX_US as nat
        },
    decreases n,
{
    vstd::arithmetic::power2::lemma2_to64();
    if n > 0 {
        lemma_idle_backoff_doubles_then_caps((n - 1) as nat);
        if n < 7 {
            vstd::arithmetic::power2::lemma_pow2_unfold(n);
        }
    }
}

} // verus!
