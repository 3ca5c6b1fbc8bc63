//! The admission rule of the renderer's point-light set.
//!
//! The renderer binds lights as a fixed-size uniform array, so a light set
//! is accepted only up to that size; everything past the count check is
//! graphics-API work and lives outside this crate.

use vstd::prelude::*;

verus! {

/// Most lights a light set accepts: the size of the uniform array.
pub const MAX_LIGHT_COUNT: usize = 256;

/// Why a light set could not be built.
#[derive(Clone, Copy, Debug, PartialEq, Eq)]
pub enum LightUniformError {
    /// More lights were offered than `MAX_LIGHT_COUNT`; carries the count
    /// that was offered.
    TooManyLights(usize),
}

/// Admission check of a light set: `Ok` exactly when `count` lights fit
/// the fixed uniform array, else `TooManyLights` with the offered count.
pub fn validate_light_count(count: usize) -> (r: Result<(), LightUniformError>)
    ensures
        r is Ok <==> count <= MAX_LIGHT_COUNT,
        r matches Err(e) ==> e == LightUniformError::TooManyLights(count),
{
    if count > MAX_LIGHT_COUNT {
        Err(LightUniformError::TooManyLights(count))
    } else {
        Ok(())
    }
}

} // verus!
