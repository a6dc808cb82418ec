//! Narrowing an exclusive handle to something reachable inside it, with the
//! original handle handed back whenever the narrowing finds nothing.
//!
//! A probe runs once on a temporary exclusive view of the owner and reports
//! where the target is (an index, a key, a step along a path), or that there
//! is none. Only after that view has ended is the target re-acquired, by a
//! projection that receives the original handle itself. So the caller always
//! ends up with exactly one live handle: the narrowed one, or the owner back.
use vstd::prelude::*;

pub mod laws;
mod narrow;
mod probe;

pub use narrow::PoloniusExt;
pub use probe::FnOnceReturningOption;
