//! Follow mode: the widget shrinks to a dot, trails the cursor with a lag,
//! and expands again once the cursor comes close.
//!
//! The controller is a state machine. Its caller reads the platform, hands
//! each reading in as an event, and carries out the action that comes back:
//! running an animation, placing the window, sleeping, sending signals.

use vstd::prelude::*;
use crate::config::{
    ANIMATION_DELAY_MS, ANIMATION_STEPS, DOT_EXTENT, DOT_HALF_EXTENT, EXIT_DISTANCE, FOLLOW_TICK_MS,
    PURSUIT_DISTANCE, PURSUIT_GAIN_DENOMINATOR, PURSUIT_GAIN_NUMERATOR, RESTORED_HEIGHT,
    RESTORED_WIDTH,
};
use crate::geometry::{MouseSample, PhysicalPosition, PhysicalSize};
use crate::signal::Signal;
use crate::stepper::{trunc_div, AnimationPlan};

verus! {

/// The size of the dot.
pub open spec fn dot_size() -> PhysicalSize {
    PhysicalSize { width: DOT_EXTENT, height: DOT_EXTENT }
}

/// The size that the widget returns to when follow mode ends.
pub open spec fn restored_size() -> PhysicalSize {
    PhysicalSize { width: RESTORED_WIDTH, height: RESTORED_HEIGHT }
}

/// The animation that shrinks a widget of size `current` to the dot.
pub open spec fn shrink_plan(current: PhysicalSize) -> AnimationPlan<PhysicalSize> {
    AnimationPlan {
        from: current,
        to: dot_size(),
        steps: ANIMATION_STEPS,
        delay_ms: ANIMATION_DELAY_MS,
    }
}

/// The animation that expands a widget of size `current` to the restored
/// size.
pub open spec fn expand_plan(current: PhysicalSize) -> AnimationPlan<PhysicalSize> {
    AnimationPlan {
        from: current,
        to: restored_size(),
        steps: ANIMATION_STEPS,
        delay_ms: ANIMATION_DELAY_MS,
    }
}

/// The band around the dot in which the cursor lies.
#[derive(Clone, Copy, Debug, PartialEq, Eq, Structural)]
pub enum Zone {
    /// Nearer than `EXIT_DISTANCE`: follow mode ends.
    Exit,
    /// From `EXIT_DISTANCE` to `PURSUIT_DISTANCE`, both included: the dot
    /// stays where it is.
    Dead,
    /// Farther than `PURSUIT_DISTANCE`: the dot moves toward the cursor.
    Pursuit,
}

/// The vector from the centre of a dot at `position` to the cursor.
pub open spec fn offset_to_cursor(position: PhysicalPosition, mouse: MouseSample) -> (int, int) {
    (
        mouse.x - (position.x + DOT_HALF_EXTENT),
        mouse.y - (position.y + DOT_HALF_EXTENT),
    )
}

/// The square of the Euclidean distance from the centre of a dot at
/// `position` to the cursor.
pub open spec fn distance_squared(position: PhysicalPosition, mouse: MouseSample) -> int {
    let (dx, dy) = offset_to_cursor(position, mouse);
    dx * dx + dy * dy
}

/// The zone of the cursor. A distance is below a bound exactly when its
/// square is below the bound's square, so the squares are compared and no
/// root is taken.
pub open spec fn zone_of(position: PhysicalPosition, mouse: MouseSample) -> Zone {
    let d2 = distance_squared(position, mouse);
    if d2 < EXIT_DISTANCE * EXIT_DISTANCE {
        Zone::Exit
    } else if d2 <= PURSUIT_DISTANCE * PURSUIT_DISTANCE {
        Zone::Dead
    } else {
        Zone::Pursuit
    }
}

/// How far the dot moves along one axis in one tick when the cursor is `d`
/// pixels away along that axis: 0.15 × `d`, rounded toward zero.
pub open spec fn pursuit_stride(d: int) -> int {
    trunc_div(PURSUIT_GAIN_NUMERATOR * d, PURSUIT_GAIN_DENOMINATOR as int)
}

/// Where one tick of pursuit takes a dot at `position`.
pub open spec fn pursuit_target(position: PhysicalPosition, mouse: MouseSample) -> (int, int) {
    let (dx, dy) = offset_to_cursor(position, mouse);
    (position.x + pursuit_stride(dx), position.y + pursuit_stride(dy))
}

/// Both coordinates can be held by a `PhysicalPosition`.
pub open spec fn representable(point: (int, int)) -> bool {
    i32::MIN <= point.0 <= i32::MAX && i32::MIN <= point.1 <= i32::MAX
}

/// Finds the zone of the cursor around a dot at `position`.
pub fn zone(position: PhysicalPosition, mouse: MouseSample) -> (r: Zone)
    ensures
        r == zone_of(position, mouse),
{
    let dx: i128 = (mouse.x as i128) - (position.x as i128 + DOT_HALF_EXTENT as i128);
    let dy: i128 = (mouse.y as i128) - (position.y as i128 + DOT_HALF_EXTENT as i128);
    assert(0 <= dx * dx <= 0x4_0000_0000_0000_0000) by (nonlinear_arith)
        requires
            -0x2_0000_0000 <= dx <= 0x2_0000_0000,
    ;
    assert(0 <= dy * dy <= 0x4_0000_0000_0000_0000) by (nonlinear_arith)
        requires
            -0x2_0000_0000 <= dy <= 0x2_0000_0000,
    ;
    let d2: i128 = dx * dx + dy * dy;
    if d2 < (EXIT_DISTANCE as i128) * (EXIT_DISTANCE as i128) {
        Zone::Exit
    } else if d2 <= (PURSUIT_DISTANCE as i128) * (PURSUIT_DISTANCE as i128) {
        Zone::Dead
    } else {
        Zone::Pursuit
    }
}

/// How far the dot moves along one axis for a cursor `d` pixels away.
fn stride(d: i64) -> (r: i64)
    requires
        -0x2_0000_0000 <= d <= 0x2_0000_0000,
    ensures
        r == pursuit_stride(d as int),
{
    let scaled: i64 = PURSUIT_GAIN_NUMERATOR * d;
    if scaled >= 0 {
        scaled / PURSUIT_GAIN_DENOMINATOR
    } else {
        -((-scaled) / PURSUIT_GAIN_DENOMINATOR)
    }
}

/// Where one tick of pursuit takes a dot at `position`, or `None` where that
/// point lies outside what a position can hold.
pub fn pursue(position: PhysicalPosition, mouse: MouseSample) -> (r: Option<PhysicalPosition>)
    ensures
        r is Some <==> representable(pursuit_target(position, mouse)),
        r matches Some(target) ==> (target.x as int, target.y as int) == pursuit_target(
            position,
            mouse,
        ),
{
    let dx: i64 = (mouse.x as i64) - (position.x as i64 + DOT_HALF_EXTENT);
    let dy: i64 = (mouse.y as i64) - (position.y as i64 + DOT_HALF_EXTENT);
    let sx: i64 = stride(dx);
    let sy: i64 = stride(dy);
    let x: i64 = position.x as i64 + sx;
    let y: i64 = position.y as i64 + sy;
    if x < i32::MIN as i64 || x > i32::MAX as i64 || y < i32::MIN as i64 || y > i32::MAX as i64 {
        None
    } else {
        Some(PhysicalPosition { x: x as i32, y: y as i32 })
    }
}

/// Where follow mode stands. One controller is live per invocation.
#[derive(Clone, Copy, Debug, PartialEq, Eq, Structural)]
pub enum FollowState {
    /// Nothing is going on; an invocation may start.
    Idle,
    /// The widget is being animated down to the dot.
    Shrinking,
    /// The dot trails the cursor, tick by tick.
    Following,
    /// The widget is being animated back to the restored size.
    Expanding,
}

/// What the caller reports to the controller.
#[derive(Clone, Copy, Debug, PartialEq, Eq)]
pub enum FollowEvent {
    /// Follow mode was asked for. `widget` is the current size of the widget
    /// window, or `None` where that window could not be located.
    Invoke { widget: Option<PhysicalSize> },
    /// The animation that the controller last asked for has run to its end.
    AnimationComplete,
    /// One tick of the follow loop: the cursor as just sampled, and the
    /// widget's position and size as just read, each `None` where the read
    /// failed.
    Tick { mouse: MouseSample, position: Option<PhysicalPosition>, size: Option<PhysicalSize> },
}

/// What the controller asks of the caller.
#[derive(Clone, Copy, Debug, PartialEq, Eq)]
pub enum FollowAction {
    /// The event means nothing in the current state: do nothing.
    Ignore,
    /// The widget window is missing: say so to the user and stop.
    ReportMissingWidget,
    /// Run this animation on the widget, then report `AnimationComplete`.
    Animate(AnimationPlan<PhysicalSize>),
    /// Start the background task that ticks, and report its first `Tick`
    /// without sleeping first.
    StartFollowing,
    /// Leave the widget where it is, sleep, then report the next `Tick`.
    Rest { ms: u64 },
    /// Place the widget at `position`, ignoring a failure to do so, sleep,
    /// then report the next `Tick`.
    MoveTo { position: PhysicalPosition, rest_ms: u64 },
    /// Send `first`, then `second`, and end the background task.
    Emit { first: Signal, second: Signal },
}

/// What one tick of the follow loop leads to.
///
/// A tick whose position could not be read is skipped. In the exit zone the
/// widget expands from the size just read, and the tick is skipped where
/// that could not be read. In the dead zone nothing moves. In the pursuit
/// zone the dot is placed at the pursuit target, and stays where it is if no
/// position can hold that target.
pub open spec fn tick_outcome(
    mouse: MouseSample,
    position: Option<PhysicalPosition>,
    size: Option<PhysicalSize>,
) -> (FollowState, FollowAction) {
    let rest = (FollowState::Following, FollowAction::Rest { ms: FOLLOW_TICK_MS });
    match position {
        None => rest,
        Some(at) => match zone_of(at, mouse) {
            Zone::Exit => match size {
                Some(current) => (
                    FollowState::Expanding,
                    FollowAction::Animate(expand_plan(current)),
                ),
                None => rest,
            },
            Zone::Dead => rest,
            Zone::Pursuit => {
                let target = pursuit_target(at, mouse);
                if representable(target) {
                    (
                        FollowState::Following,
                        FollowAction::MoveTo {
                            position: PhysicalPosition { x: target.0 as i32, y: target.1 as i32 },
                            rest_ms: FOLLOW_TICK_MS,
                        },
                    )
                } else {
                    rest
                }
            },
        },
    }
}

/// The state machine of follow mode: the state that follows `state` on
/// `event`, and what the caller is to do.
pub open spec fn transition(state: FollowState, event: FollowEvent) -> (FollowState, FollowAction) {
    match (state, event) {
        (FollowState::Idle, FollowEvent::Invoke { widget: Some(current) }) => (
            FollowState::Shrinking,
            FollowAction::Animate(shrink_plan(current)),
        ),
        (FollowState::Idle, FollowEvent::Invoke { widget: None }) => (
            FollowState::Idle,
            FollowAction::ReportMissingWidget,
        ),
        (FollowState::Shrinking, FollowEvent::AnimationComplete) => (
            FollowState::Following,
            FollowAction::StartFollowing,
        ),
        (FollowState::Following, FollowEvent::Tick { mouse, position, size }) => tick_outcome(
            mouse,
            position,
            size,
        ),
        (FollowState::Expanding, FollowEvent::AnimationComplete) => (
            FollowState::Idle,
            FollowAction::Emit { first: Signal::ExitFollowMode, second: Signal::OnboardingDone },
        ),
        _ => (state, FollowAction::Ignore),
    }
}

/// Decides one tick of the follow loop.
pub fn follow_tick(
    mouse: MouseSample,
    position: Option<PhysicalPosition>,
    size: Option<PhysicalSize>,
) -> (r: (FollowState, FollowAction))
    ensures
        r == tick_outcome(mouse, position, size),
{
    let rest = (FollowState::Following, FollowAction::Rest { ms: FOLLOW_TICK_MS });
    match position {
        None => rest,
        Some(at) => match zone(at, mouse) {
            Zone::Exit => match size {
                Some(current) => (
                    FollowState::Expanding,
                    FollowAction::Animate(
                        AnimationPlan {
                            from: current,
                            to: PhysicalSize { width: RESTORED_WIDTH, height: RESTORED_HEIGHT },
                            steps: ANIMATION_STEPS,
                            delay_ms: ANIMATION_DELAY_MS,
                        },
                    ),
                ),
                None => rest,
            },
            Zone::Dead => rest,
            Zone::Pursuit => match pursue(at, mouse) {
                Some(target) => (
                    FollowState::Following,
                    FollowAction::MoveTo { position: target, rest_ms: FOLLOW_TICK_MS },
                ),
                None => rest,
            },
        },
    }
}

/// The controller of one widget's follow mode.
pub struct FollowModeController {
    state: FollowState,
}

impl FollowModeController {
    /// The state that the controller is in.
    pub closed spec fn current(self) -> FollowState {
        self.state
    }

    /// A controller at rest.
    pub fn new() -> (r: Self)
        ensures
            r.current() == FollowState::Idle,
    {
        FollowModeController { state: FollowState::Idle }
    }

    /// The state that the controller is in.
    pub fn state(&self) -> (r: FollowState)
        ensures
            r == self.current(),
    {
        self.state
    }

    /// Takes one event: moves to the state that `transition` gives and
    /// returns the action that it gives.
    pub fn handle(&mut self, event: FollowEvent) -> (action: FollowAction)
        ensures
            (final(self).current(), action) == transition(old(self).current(), event),
    {
        match (self.state, event) {
            (FollowState::Idle, FollowEvent::Invoke { widget: Some(current) }) => {
                self.state = FollowState::Shrinking;
                FollowAction::Animate(
                    AnimationPlan {
                        from: current,
                        to: PhysicalSize { width: DOT_EXTENT, height: DOT_EXTENT },
                        steps: ANIMATION_STEPS,
                        delay_ms: ANIMATION_DELAY_MS,
                    },
                )
            },
            (FollowState::Idle, FollowEvent::Invoke { widget: None }) => {
                FollowAction::ReportMissingWidget
            },
            (FollowState::Shrinking, FollowEvent::AnimationComplete) => {
                self.state = FollowState::Following;
                FollowAction::StartFollowing
            },
            (FollowState::Following, FollowEvent::Tick { mouse, position, size }) => {
                let (next, action) = follow_tick(mouse, position, size);
                self.state = next;
                action
            },
            (FollowState::Expanding, FollowEvent::AnimationComplete) => {
                self.state = FollowState::Idle;
                FollowAction::Emit {
                    first: Signal::ExitFollowMode,
                    second: Signal::OnboardingDone,
                }
            },
            _ => FollowAction::Ignore,
        }
    }
}

/// The state that comes after `state` in the one cycle that follow mode
/// runs through.
pub open spec fn successor(state: FollowState) -> FollowState {
    match state {
        FollowState::Idle => FollowState::Shrinking,
        FollowState::Shrinking => FollowState::Following,
        FollowState::Following => FollowState::Expanding,
        FollowState::Expanding => FollowState::Idle,
    }
}

/// The state reached from `state` after all of `events`, in their order.
pub open spec fn state_after(state: FollowState, events: Seq<FollowEvent>) -> FollowState
    decreases events.len(),
{
    if events.len() == 0 {
        state
    } else {
        transition(state_after(state, events.drop_last()), events.last()).0
    }
}

/// The event starts a fresh invocation on a widget that was found.
pub open spec fn invokes(event: FollowEvent) -> bool {
    event matches FollowEvent::Invoke { widget: Some(_) }
}

/// Follow mode only ever moves forward: an event leaves the state as it is
/// or takes it to its successor, so shrinking comes before following,
/// following before expanding, and expanding before the return to rest.
pub proof fn lemma_transitions_are_one_directional(state: FollowState, event: FollowEvent)
    ensures
        transition(state, event).0 == state || transition(state, event).0 == successor(state),
{
}

/// Each action belongs to one step of the cycle. The widget is shrunk only
/// on leaving rest, placed or rested only while following, expanded only on
/// leaving following, and the signals are sent only on returning to rest.
pub proof fn lemma_actions_belong_to_states(state: FollowState, event: FollowEvent)
    ensures
        ({
            let (next, action) = transition(state, event);
            &&& action is ReportMissingWidget ==> state == FollowState::Idle && next == state
            &&& action is Ignore ==> next == state
            &&& action is StartFollowing ==> state == FollowState::Shrinking && next
                == FollowState::Following
            &&& action is Rest ==> state == FollowState::Following && next == state
            &&& action is MoveTo ==> state == FollowState::Following && next == state
            &&& action is Emit ==> state == FollowState::Expanding && next == FollowState::Idle
            &&& action matches FollowAction::Animate(plan) ==> {
                ||| state == FollowState::Idle && next == FollowState::Shrinking && plan.to
                    == dot_size()
                ||| state == FollowState::Following && next == FollowState::Expanding && plan.to
                    == restored_size()
            }
        }),
{
}

/// A missing widget window changes nothing, whatever the state.
pub proof fn lemma_missing_widget_changes_nothing(state: FollowState)
    ensures
        transition(state, FollowEvent::Invoke { widget: None }).0 == state,
        transition(state, FollowEvent::Invoke { widget: None }).1 is ReportMissingWidget
            || transition(state, FollowEvent::Invoke { widget: None }).1 is Ignore,
{
}

/// Nearer than the exit distance, a tick whose reads succeeded ends
/// following: the widget expands, from the size just read, to the restored
/// size.
pub proof fn lemma_exit_zone_ends_following(
    mouse: MouseSample,
    at: PhysicalPosition,
    current: PhysicalSize,
)
    requires
        distance_squared(at, mouse) < EXIT_DISTANCE * EXIT_DISTANCE,
    ensures
        transition(
            FollowState::Following,
            FollowEvent::Tick { mouse, position: Some(at), size: Some(current) },
        ) == (FollowState::Expanding, FollowAction::Animate(expand_plan(current))),
{
}

/// Once following has ended it does not resume: until a fresh invocation,
/// the controller is expanding or at rest, and every tick is ignored.
pub proof fn lemma_following_does_not_resume(events: Seq<FollowEvent>)
    requires
        forall|i: int| 0 <= i < events.len() ==> !invokes(#[trigger] events[i]),
    ensures
        state_after(FollowState::Expanding, events) == FollowState::Expanding || state_after(
            FollowState::Expanding,
            events,
        ) == FollowState::Idle,
        forall|mouse: MouseSample, position: Option<PhysicalPosition>, size: Option<PhysicalSize>|
            #[trigger] transition(
                state_after(FollowState::Expanding, events),
                FollowEvent::Tick { mouse, position, size },
            ).1 is Ignore,
    decreases events.len(),
{
    if events.len() > 0 {
        let earlier = events.drop_last();
        assert forall|i: int| 0 <= i < earlier.len() implies !invokes(#[trigger] earlier[i]) by {
            assert(earlier[i] == events[i]);
        }
        lemma_following_does_not_resume(earlier);
        assert(!invokes(events.last()));
    }
}

/// From the exit distance to the pursuit distance, both included, the dot
/// stays where it is, whatever the size read.
pub proof fn lemma_dead_zone_holds_position(
    mouse: MouseSample,
    at: PhysicalPosition,
    size: Option<PhysicalSize>,
)
    requires
        EXIT_DISTANCE * EXIT_DISTANCE <= distance_squared(at, mouse) <= PURSUIT_DISTANCE
            * PURSUIT_DISTANCE,
    ensures
        transition(
            FollowState::Following,
            FollowEvent::Tick { mouse, position: Some(at), size },
        ) == (FollowState::Following, FollowAction::Rest { ms: FOLLOW_TICK_MS }),
{
}

/// Farther than the pursuit distance, the dot is placed 0.15 of the way to
/// the cursor, each axis rounded toward zero: it moves toward the cursor,
/// and along each axis less than one pixel short of 0.15 of the way.
pub proof fn lemma_pursuit_covers_gain_of_offset(
    mouse: MouseSample,
    at: PhysicalPosition,
    size: Option<PhysicalSize>,
)
    requires
        distance_squared(at, mouse) > PURSUIT_DISTANCE * PURSUIT_DISTANCE,
        representable(pursuit_target(at, mouse)),
    ensures
        ({
            let (next, action) = transition(
                FollowState::Following,
                FollowEvent::Tick { mouse, position: Some(at), size },
            );
            let (dx, dy) = offset_to_cursor(at, mouse);
            &&& next == FollowState::Following
            &&& action matches FollowAction::MoveTo { position, rest_ms }
            &&& rest_ms == FOLLOW_TICK_MS
            &&& position.x - at.x == pursuit_stride(dx)
            &&& position.y - at.y == pursuit_stride(dy)
            &&& within_a_pixel(position.x - at.x, dx)
            &&& within_a_pixel(position.y - at.y, dy)
        }),
{
}

/// `moved` is 0.15 × `d` rounded toward zero: of the sign of `d`, and less
/// than one pixel short of 0.15 × `d`.
pub open spec fn within_a_pixel(moved: int, d: int) -> bool {
    if d >= 0 {
        PURSUIT_GAIN_NUMERATOR * d - PURSUIT_GAIN_DENOMINATOR < PURSUIT_GAIN_DENOMINATOR * moved
            <= PURSUIT_GAIN_NUMERATOR * d
    } else {
        PURSUIT_GAIN_NUMERATOR * d <= PURSUIT_GAIN_DENOMINATOR * moved < PURSUIT_GAIN_NUMERATOR
            * d + PURSUIT_GAIN_DENOMINATOR
    }
}

} // verus!
