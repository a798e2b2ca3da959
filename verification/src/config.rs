//! The fixed values that the widget's behaviour rests on. None of them can
//! be changed while the widget runs.

use vstd::prelude::*;

verus! {

/// Width and height of the dot that the widget shrinks to.
pub const DOT_EXTENT: u32 = 20;

/// From a corner of the dot to its centre, along either axis.
pub const DOT_HALF_EXTENT: i64 = 10;

/// Width of the widget once it has expanded again.
pub const RESTORED_WIDTH: u32 = 400;

/// Height of the widget once it has expanded again.
pub const RESTORED_HEIGHT: u32 = 48;

/// Interpolated frames of each of the widget's animations. Shrinking,
/// expanding and docking share one cadence.
pub const ANIMATION_STEPS: u32 = 10;

/// Milliseconds slept after each interpolated frame.
pub const ANIMATION_DELAY_MS: u64 = 10;

/// Milliseconds slept between two ticks of the follow loop.
pub const FOLLOW_TICK_MS: u64 = 4;

/// Follow mode ends where the cursor is nearer to the dot's centre than
/// this.
pub const EXIT_DISTANCE: i64 = 20;

/// The dot moves only where the cursor is farther from its centre than this.
pub const PURSUIT_DISTANCE: i64 = 40;

/// Per tick the dot covers 0.15 of the way to the cursor: this over
/// `PURSUIT_GAIN_DENOMINATOR`.
pub const PURSUIT_GAIN_NUMERATOR: i64 = 3;

/// See `PURSUIT_GAIN_NUMERATOR`.
pub const PURSUIT_GAIN_DENOMINATOR: i64 = 20;

/// Milliseconds slept between two polls of the foreground process.
pub const POLL_INTERVAL_MS: u64 = 1000;

/// What the platform appends to the name of an executable file.
pub const EXECUTABLE_SUFFIX: &'static str = ".exe";

/// The name of the widget's own host process, which is never reported.
pub const RESERVED_NAME: &'static str = "quack";

} // verus!
