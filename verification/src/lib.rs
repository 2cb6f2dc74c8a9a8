//! An actor-backed access layer for a small ticketing service.
//!
//! Many concurrent request-handling tasks share one backend connection that
//! must only ever be driven by a single logical flow at a time.  Every access
//! is therefore routed through a bounded, ordered command queue drained by a
//! single actor loop, which executes each operation against the confined
//! backend and delivers exactly one reply per submitted operation.
//!
//! The pattern is built once and instantiated twice.  [`queue`] and
//! [`mailbox`] are the generic half: the bounded FIFO command queue, the
//! single-use reply slots and the shutdown lifecycle.  [`database`] fronts
//! the relational store of [`store`] with the closed operation catalog;
//! [`sessions`] fronts the key-value store of [`kv`].  Each instance
//! carries, beside its exact transition contracts, proofs of the load-bearing
//! guarantees: operations are applied in submission order by a single
//! writer, every operation dequeued ahead of shutdown gets exactly one
//! reply, a full queue suspends rather than drops, and a closed handle
//! fails fast.  [`user`], [`ticket`] and [`auth`] hold the records and the
//! per-request decisions the routes make on them; [`datetime`] keeps the
//! plain value this crate retains of a parsed ISO-8601 date-time.

use vstd::prelude::*;

pub mod auth;
pub mod database;
pub mod datetime;
pub mod kv;
pub mod mailbox;
pub mod queue;
pub mod sessions;
pub mod store;
pub mod ticket;
pub mod user;

verus! {

/// Capacity of every command queue: submission suspends once this many
/// commands are waiting, giving bounded backpressure.
pub const QUEUE_CAPACITY: usize = 16;

} // verus!
