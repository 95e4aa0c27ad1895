//! Client-side bridge between a process and a remote message bus.
//!
//! The bridge turns one opaque, host-supplied reference into a typed session,
//! registers the process as a client of the bus, and keeps the dispatch state
//! of its topics asserted from a background control loop. Every decision of
//! that protocol lives here as a function from plain values to plain values;
//! the calls that cross the process boundary are made by the embedding code,
//! which hands their outcome back as an event.

pub mod control_loop;
pub mod handle;
pub mod identity;
pub mod laws;
pub mod listener;
pub mod report;
pub mod session;
pub mod setup;
pub mod status;
pub mod token;
pub mod topic;
pub mod wire;
