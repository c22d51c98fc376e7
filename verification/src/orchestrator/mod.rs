//! The orchestrator core: runtime checks and editor configurations.
use vstd::prelude::*;

pub mod check;
pub mod launch;

verus! {

} // verus!
