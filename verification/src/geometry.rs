//! Screen geometry in physical pixels.

use vstd::prelude::*;

verus! {

/// The extent of a window or of a monitor.
#[derive(Clone, Copy, Debug, PartialEq, Eq, Structural)]
pub struct PhysicalSize {
    pub width: u32,
    pub height: u32,
}

/// The top-left corner of a window; negative on monitors left of or above
/// the primary one.
#[derive(Clone, Copy, Debug, PartialEq, Eq, Structural)]
pub struct PhysicalPosition {
    pub x: i32,
    pub y: i32,
}

/// Where the cursor was at the instant it was read.
#[derive(Clone, Copy, Debug, PartialEq, Eq, Structural)]
pub struct MouseSample {
    pub x: i32,
    pub y: i32,
}

} // verus!
