//! Verified decision logic of the Sparrow strip-packing bindings: how a run
//! proceeds and which code it ends with, how the settings cross the C
//! interface, how the phase-by-phase session may be driven, when progress
//! reports carry the layout, and how the exploration phase keeps its
//! feasible layouts and its pool of failed attempts.
pub mod explore;
pub mod paths;
pub mod report;
pub mod rng;
pub mod run;
pub mod settings;
pub mod step;

use vstd::prelude::*;

verus! {

/// Opaque handle to an optimizer instance of the C interface; it holds
/// nothing yet.
pub struct SparrowHandle {
    _private: (),
}

} // verus!
