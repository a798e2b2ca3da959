//! Docking: the widget is parked at the top centre of the monitor that
//! hosts it.

use vstd::prelude::*;
use crate::config::{ANIMATION_DELAY_MS, ANIMATION_STEPS};
use crate::geometry::{PhysicalPosition, PhysicalSize};
use crate::stepper::{trunc_div, AnimationPlan};

verus! {

/// The horizontal coordinate at which a window of width `window_width` is
/// centred on a monitor of width `monitor_width`: half of what the monitor
/// has left over, and 0 where the window is the wider of the two.
pub open spec fn centred_x(monitor_width: int, window_width: int) -> int {
    let half = trunc_div(monitor_width - window_width, 2);
    if half > 0 {
        half
    } else {
        0
    }
}

/// Where a window of size `window` is parked on a monitor of size `monitor`:
/// centred horizontally, at the top edge.
pub open spec fn parked_position(monitor: PhysicalSize, window: PhysicalSize) -> PhysicalPosition {
    PhysicalPosition { x: centred_x(monitor.width as int, window.width as int) as i32, y: 0 }
}

/// What docking does, given what could be read of the window and of its
/// monitor. With all three readings it is the animation from the window's
/// position to its parked position. Where any is missing, nothing is done.
pub open spec fn dock_plan(
    position: Option<PhysicalPosition>,
    size: Option<PhysicalSize>,
    monitor: Option<PhysicalSize>,
) -> Option<AnimationPlan<PhysicalPosition>> {
    match (position, size, monitor) {
        (Some(at), Some(window), Some(screen)) => Some(
            AnimationPlan {
                from: at,
                to: parked_position(screen, window),
                steps: ANIMATION_STEPS,
                delay_ms: ANIMATION_DELAY_MS,
            },
        ),
        _ => None,
    }
}

/// Computes where a window of size `window` is parked on a monitor of size
/// `monitor`.
pub fn dock_target(monitor: PhysicalSize, window: PhysicalSize) -> (r: PhysicalPosition)
    ensures
        r == parked_position(monitor, window),
        r.x == centred_x(monitor.width as int, window.width as int),
        r.y == 0,
{
    let left_over: i64 = monitor.width as i64 - window.width as i64;
    let x: i64 = if left_over > 0 {
        left_over / 2
    } else {
        0
    };
    PhysicalPosition { x: x as i32, y: 0 }
}

/// Plans the docking of a window from what could be read of it: its
/// position, its size, and the size of the monitor that hosts it.
pub fn dock(
    position: Option<PhysicalPosition>,
    size: Option<PhysicalSize>,
    monitor: Option<PhysicalSize>,
) -> (r: Option<AnimationPlan<PhysicalPosition>>)
    ensures
        r == dock_plan(position, size, monitor),
{
    match (position, size, monitor) {
        (Some(at), Some(window), Some(screen)) => Some(
            AnimationPlan {
                from: at,
                to: dock_target(screen, window),
                steps: ANIMATION_STEPS,
                delay_ms: ANIMATION_DELAY_MS,
            },
        ),
        _ => None,
    }
}

/// Docking ends on the parked position, at the top edge of the monitor.
/// Where the monitor is at least as wide as the window, the window is
/// centred: the room to its right is the room to its left, or one pixel
/// more. Where the window is the wider, it starts at the left edge.
pub proof fn lemma_dock_ends_parked(at: PhysicalPosition, window: PhysicalSize, screen: PhysicalSize)
    ensures
        dock_plan(Some(at), Some(window), Some(screen)) matches Some(plan) && plan.frames().last().value
            == parked_position(screen, window),
        parked_position(screen, window).y == 0,
        screen.width >= window.width ==> {
            let x = parked_position(screen, window).x;
            let left = x as int;
            let right = screen.width - window.width - x;
            left <= right <= left + 1
        },
        screen.width < window.width ==> parked_position(screen, window).x == 0,
{
}

} // verus!
