//! Orchestration core of a multi-party threshold-signature service: the
//! round-driven protocol executor, the two-phase keygen/sign coordination,
//! room-scoped session naming, the key-share store, and the queue-driven job
//! dispatch decisions. Elliptic-curve threshold cryptography itself is
//! supplied by an external library and reached only through the trusted
//! items in `crypto`.

use vstd::prelude::*;

pub mod crypto;
pub mod digest;
pub mod dispatch;
pub mod errors;
pub mod executor;
pub mod keygenflow;
pub mod keyshare;
pub mod message;
pub mod rooms;
pub mod service;
pub mod signflow;

verus! {

/// Health-check banner served at the service root.
pub fn index() -> (r: &'static str)
    ensures
        r@ == "Hello, world!"@,
{
    "Hello, world!"
}

} // verus!
