//! Geometry kernel and support types for a small game framework.
//!
//! The kernel works on exact fixed-point scalars: a scalar is an `i64`
//! holding the intended real value times [`SCALE`].  All operations have
//! exact contracts over that representation.

use vstd::prelude::*;

pub mod fixed;
pub mod logger;
pub mod mathf;
pub mod rect;
pub mod vec2;
pub mod vec3;
pub mod window;

verus! {

/// Number of fixed-point units in 1.0.
pub const SCALE: i64 = 1_000_000;

/// The value of PI, in fixed-point units.
pub const PI: i64 = 3_141_592;

/// Half of PI, in fixed-point units.
pub const HALF_PI: i64 = 1_570_796;

} // verus!
