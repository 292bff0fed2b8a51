//! Keeps a packaging repository's build recipe in step with the latest
//! upstream release: decides whether an update is due, rewrites the recipe's
//! assignment lines, gates the computed version behind a format pattern, and
//! drives the regenerate/validate/persist/publish sequence as an explicit
//! state machine.

pub mod config;
pub mod gate;
pub mod metadata;
pub mod pipeline;
pub mod provider;
pub mod recipe;
pub mod state;
pub mod text;

use vstd::prelude::*;

verus! {

/// The update decision: the pipeline proceeds exactly when the provider's
/// candidate differs from the last applied version, or when the force flag
/// bypasses the short-circuit.
pub fn should_update(applied: &Vec<u8>, candidate: &Vec<u8>, force: bool) -> (r: bool)
    ensures
        r == (force || applied@ != candidate@),
{
    if force {
        true
    } else {
        !crate::text::bytes_eq(applied, candidate)
    }
}

} // verus!

