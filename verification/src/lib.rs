//! Role-common core of a Raft replica.
//!
//! One object, [`common::Common`], owns the per-node state that is kept
//! identically across the Leader, Candidate and Follower roles: the ballot
//! (term and vote), the log history with its four monotone positions, the
//! host-visible event queue, the single-flight snapshot-install and
//! committed-load slots, and the one-slot deferred-message buffer.
//!
//! The durable backend (log reads and writes, ballot persistence, timers,
//! message transport) is abstracted by the [`io::Io`] trait, which the host
//! implements; its operations are polled, never awaited, so every method of
//! the core completes synchronously and is verified for every behaviour the
//! backend may exhibit.

pub mod cluster;
pub mod common;
pub mod election;
pub mod error;
pub mod event;
pub mod io;
pub mod log;
pub mod message;
pub mod node;
