//! A work service that clients poll until a job is done: the registry of jobs
//! and its poll state machine, the HTTP replies built from it, and the
//! client-side decisions that follow redirects with a wait hint.
use vstd::prelude::*;

pub mod client;
pub mod laws;
pub mod outside;
pub mod registry;
pub mod surface;

verus! {

} // verus!
