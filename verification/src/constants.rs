//! Build-time configuration of the kernel.

use vstd::prelude::*;

verus! {

/// East component of the world origin, in metres.
pub const WORLD_ORIGIN_X: i64 = 0;

/// North component of the world origin, in metres.
pub const WORLD_ORIGIN_Y: i64 = 0;

/// Up component of the world origin, in metres.
pub const WORLD_ORIGIN_Z: i64 = 0;

} // verus!
