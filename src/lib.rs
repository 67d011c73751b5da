//! Network resources of a sandboxed runtime: a registry of live listeners and
//! streams, the accept state machine that suspends on a listener, and the
//! handlers for listen, accept, dial and shutdown.
use vstd::prelude::*;

pub mod error;
pub mod resource;
pub mod accept;
pub mod ops;
pub mod laws;

verus! {

} // verus!
