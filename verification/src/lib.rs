//! Session lifecycle and packet-forwarding decisions for a tunnel that carries
//! the traffic of a virtual network interface over one multiplexed transport.
//!
//! The crate holds the rules only: which lifecycle call is admitted in which
//! state, what each call leaves behind, and what the forwarding loop does with
//! each thing that happens to it. Opening sockets and devices, awaiting and
//! spawning are left to the caller, which reports back what happened.

pub mod control;
pub mod endpoint;
pub mod error;
pub mod forward;
pub mod history;
pub mod model;
pub mod session;
