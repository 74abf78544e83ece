//! Bridge between an application and a multicast-DNS discovery daemon.
//!
//! The daemon runs out of process and reports through asynchronous
//! callbacks on its own event-loop thread.  This crate turns that
//! callback-driven protocol into a synchronous, cancellable API: it
//! decodes the daemon's numeric states and events, moves event payloads
//! across the thread boundary through a typed channel, drives the
//! blocking browse / resolve / host-name state machines, and encodes the
//! record data the daemon is asked to publish.

pub mod adapter;
pub mod avahi;
pub mod browse;
pub mod callbacks;
pub mod discovery;
pub mod errors;
pub mod fake;
pub mod host;
pub mod resolve;
pub mod session;
pub mod transport;
