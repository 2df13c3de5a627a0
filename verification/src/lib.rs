//! A verified multi-step wizard workflow: an ordered set of form steps whose
//! answers accumulate across independent requests, with per-step validation
//! gates and branching navigation (forward, backward, cancel, finish).
//!
//! The heart of the crate is the navigation engine in [`engine`]: a pure
//! function from `(current step, action, submitted value, accumulated state)`
//! to `(next step, updated state, storage effect)`. Both a server-rendered
//! request/redirect adapter and a client-held event-driven adapter can drive
//! the same engine, so their observable behaviour cannot diverge.

use vstd::prelude::*;

pub mod date;
pub mod domain;
pub mod engine;
pub mod laws;
pub mod state;
pub mod steps;
pub mod text;
pub mod transport;
pub mod user;
pub mod wizard;

verus! {

/// The smallest step index of the wizard.
pub const FIRST_STEP: u32 = 1;

/// The largest step index of the wizard (the review step).
pub const LAST_STEP: u32 = 5;

/// A step index forced into the valid range `1..=5`.
pub open spec fn spec_clamp_step(step: u32) -> u32 {
    if step < FIRST_STEP {
        FIRST_STEP
    } else if step > LAST_STEP {
        LAST_STEP
    } else {
        step
    }
}

/// Force a step index into the valid range `1..=5`. Out-of-range step
/// references are clamped silently; they are never an error.
pub fn clamp_step(step: u32) -> (r: u32)
    ensures
        r == spec_clamp_step(step),
        FIRST_STEP <= r <= LAST_STEP,
{
    if step < FIRST_STEP {
        FIRST_STEP
    } else if step > LAST_STEP {
        LAST_STEP
    } else {
        step
    }
}

} // verus!
