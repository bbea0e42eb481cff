//! The decision core of the settings panel: applying pending sampler
//! settings to the generator and signalling that the world must be rebuilt.
//! Drawing the panel and reading its widgets belong to the host.

use vstd::prelude::*;

use crate::noise_generator::{NoiseGenerator, NoiseValues};

verus! {

/// Sampler settings edited in the panel but not yet applied to the
/// generator.
#[derive(Clone, Copy, PartialEq, Eq, Structural, Debug)]
pub struct UnappliedSettings {
    pub map_generator_values: NoiseValues,
}

/// Signal to the host that every spawned chunk is stale and the world must
/// be regenerated.
#[derive(Clone, Copy, PartialEq, Eq, Structural, Debug)]
pub struct RegenerateMapEvent;

/// Apply the pending settings when the apply action fired: the generator
/// takes the pending values, keeps its seed, and a regeneration event is
/// owed exactly when something was applied.
pub fn apply_settings(map_gen: &mut NoiseGenerator, unapplied: &UnappliedSettings, apply: bool) -> (regenerate: Option<RegenerateMapEvent>)
    ensures
        regenerate is Some <==> apply,
        apply ==> *final(map_gen) == (NoiseGenerator {
            values: unapplied.map_generator_values,
            seed: old(map_gen).seed,
        }),
        !apply ==> *final(map_gen) == *old(map_gen),
{
    if apply {
        map_gen.values = unapplied.map_generator_values;
        Some(RegenerateMapEvent)
    } else {
        None
    }
}

} // verus!
