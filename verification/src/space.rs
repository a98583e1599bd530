use vstd::prelude::*;

verus! {

/// Marker for magnitudes measured in world coordinates.
#[derive(Copy, Clone, PartialEq, Eq, Debug)]
pub struct World;

/// Marker for magnitudes measured in screen (pixel) coordinates.
#[derive(Copy, Clone, PartialEq, Eq, Debug)]
pub struct Screen;

/// Marker for magnitudes measured in clip-space coordinates.
#[derive(Copy, Clone, PartialEq, Eq, Debug)]
pub struct Clip;

} // verus!
