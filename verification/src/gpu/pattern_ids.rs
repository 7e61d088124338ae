//! Pattern IDs that must match the constants in the WGSL shader sources.
//!
//! These correspond to the `TestPattern` enumeration order; the mapping is
//! part of the wire contract with the compute shaders and must never be
//! reordered.

use vstd::prelude::*;

verus! {

pub const WALKING_ONES: u32 = 0;

pub const WALKING_ZEROS: u32 = 1;

pub const CHECKERBOARD: u32 = 2;

pub const INVERSE_CHECKERBOARD: u32 = 3;

pub const RANDOM: u32 = 4;

pub const ALL_ZEROS: u32 = 5;

pub const ALL_ONES: u32 = 6;

pub const SEQUENTIAL: u32 = 7;

} // verus!
