//! Layout primitives for panel construction.

use vstd::prelude::*;

verus! {

/// Height of a horizontal separator line, in pixels.
pub const SEPARATOR_HEIGHT: i32 = 1;

} // verus!
