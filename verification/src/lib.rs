//! Transport-agnostic connection core for a peer-to-peer networking layer.
//!
//! A transport plugs in as a [`net_connection::NetWorker`]: a set of hooks
//! (`receive`, `tick`, `report`, `destroy`) that a driver calls to push
//! outbound messages into the transport, to give it a chance to poll for
//! inbound work, and to turn a hook failure into an observable error
//! event.  Results flow back to the owning side through a
//! [`net_connection::NetHandler`] callback bound at construction time.
//!
//! Two drivers are provided: [`net_connection::NetConnectionRelay`], which
//! drives its worker inline on the caller's thread, and the poll-loop state
//! machine in [`poll_loop`], which a dedicated thread runs with an adaptive
//! idle backoff so that busy connections are serviced at low latency while
//! idle ones decay toward a bounded polling cost.

pub mod error;
pub mod net_connection;
pub mod poll_loop;
pub mod workers;

use vstd::prelude::*;

verus! {

} // verus!
