use vstd::prelude::*;

verus! {

/// The part of a sampler's configuration that decides which image views it can sample.
#[derive(Clone, Copy, Debug, PartialEq, Eq, Hash, Structural)]
pub struct Sampler {
    /// The sampler compares against a reference value (depth comparison).
    pub compare_mode: bool,
    /// The sampler addresses texels by unnormalized coordinates.
    pub unnormalized: bool,
    pub usable_with_float_formats: bool,
    pub usable_with_int_formats: bool,
    pub usable_with_swizzling: bool,
}

} // verus!
