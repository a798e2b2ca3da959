//! The animation stepper: linear interpolation of a window's size or
//! position over a fixed number of frames, ending exactly on the target.
//!
//! A plan unfolds into a sequence of frames. The caller applies each frame to
//! the window and sleeps for the pause that the frame asks for; the stepper
//! decides what each frame holds.

use vstd::prelude::*;
use crate::geometry::{PhysicalPosition, PhysicalSize};

verus! {

/// The quotient of `a` by a positive `b`, rounded toward zero.
pub open spec fn trunc_div(a: int, b: int) -> int {
    if a >= 0 {
        a / b
    } else {
        -((-a) / b)
    }
}

/// One channel of frame `i` out of `steps`: the whole distance is divided by
/// `steps`, rounding toward zero, and `i` such strides are added to `from`.
pub open spec fn lerp(from: int, to: int, steps: int, i: int) -> int {
    from + trunc_div(to - from, steps) * i
}

/// `v` lies between `a` and `b`, whichever of the two is the larger.
pub open spec fn between(a: int, v: int, b: int) -> bool {
    (a <= v <= b) || (b <= v <= a)
}

/// No frame of an interpolation leaves the interval spanned by its ends.
pub proof fn lemma_lerp_between(from: int, to: int, steps: int, i: int)
    requires
        0 <= i <= steps,
        steps >= 1,
    ensures
        between(from, lerp(from, to, steps, i), to),
{
    let d = to - from;
    let q = trunc_div(d, steps);
    if d >= 0 {
        assert(0 <= q && q * steps <= d) by (nonlinear_arith)
            requires
                q == d / steps,
                d >= 0,
                steps >= 1,
        ;
        assert(0 <= q * i <= q * steps) by (nonlinear_arith)
            requires
                0 <= q,
                0 <= i <= steps,
        ;
    } else {
        let m = (-d) / steps;
        assert(0 <= m && m * steps <= -d) by (nonlinear_arith)
            requires
                m == (-d) / steps,
                -d >= 0,
                steps >= 1,
        ;
        assert(0 <= m * i <= m * steps) by (nonlinear_arith)
            requires
                0 <= m,
                0 <= i <= steps,
        ;
        assert(q * i == -(m * i)) by (nonlinear_arith)
            requires
                q == -m,
        ;
    }
}

/// Computes one channel of a frame. Either end may be any `u32` or any
/// `i32`, so that the channels of a size and those of a position share this
/// function.
fn interpolate(from: i64, to: i64, steps: u32, i: u32) -> (r: i64)
    requires
        1 <= i <= steps,
        -0x1_0000_0000 <= from <= 0x1_0000_0000,
        -0x1_0000_0000 <= to <= 0x1_0000_0000,
    ensures
        r == lerp(from as int, to as int, steps as int, i as int),
        between(from as int, r as int, to as int),
{
    let delta: i64 = to - from;
    let count: i64 = steps as i64;
    let stride: i64 = if delta >= 0 {
        delta / count
    } else {
        -((-delta) / count)
    };
    proof {
        lemma_lerp_between(from as int, to as int, steps as int, i as int);
        assert(stride == trunc_div(delta as int, steps as int));
    }
    from + stride * (i as i64)
}

/// A value that the stepper can move from one state to another: a size or a
/// position, each with two channels that are interpolated independently
/// along the same step index.
pub trait Animated: Copy {
    /// The value shown at step `i` of `steps` on the way from `from` to `to`.
    spec fn blend(from: Self, to: Self, steps: int, i: int) -> Self;

    /// Computes the value shown at step `i` of `steps`.
    fn blend_at(from: Self, to: Self, steps: u32, i: u32) -> (r: Self)
        requires
            1 <= i <= steps,
        ensures
            r == Self::blend(from, to, steps as int, i as int),
    ;
}

impl Animated for PhysicalSize {
    open spec fn blend(from: Self, to: Self, steps: int, i: int) -> Self {
        PhysicalSize {
            width: lerp(from.width as int, to.width as int, steps, i) as u32,
            height: lerp(from.height as int, to.height as int, steps, i) as u32,
        }
    }

    fn blend_at(from: Self, to: Self, steps: u32, i: u32) -> (r: Self)
        ensures
            r.width == lerp(from.width as int, to.width as int, steps as int, i as int),
            r.height == lerp(from.height as int, to.height as int, steps as int, i as int),
    {
        let width: i64 = interpolate(from.width as i64, to.width as i64, steps, i);
        let height: i64 = interpolate(from.height as i64, to.height as i64, steps, i);
        PhysicalSize { width: width as u32, height: height as u32 }
    }
}

impl Animated for PhysicalPosition {
    open spec fn blend(from: Self, to: Self, steps: int, i: int) -> Self {
        PhysicalPosition {
            x: lerp(from.x as int, to.x as int, steps, i) as i32,
            y: lerp(from.y as int, to.y as int, steps, i) as i32,
        }
    }

    fn blend_at(from: Self, to: Self, steps: u32, i: u32) -> (r: Self)
        ensures
            r.x == lerp(from.x as int, to.x as int, steps as int, i as int),
            r.y == lerp(from.y as int, to.y as int, steps as int, i as int),
    {
        let x: i64 = interpolate(from.x as i64, to.x as i64, steps, i);
        let y: i64 = interpolate(from.y as i64, to.y as i64, steps, i);
        PhysicalPosition { x: x as i32, y: y as i32 }
    }
}

/// What the caller does for one frame of an animation: apply `value` to the
/// window, ignoring a failure to do so, then sleep for `pause_ms`
/// milliseconds where a pause is given.
#[derive(Debug, PartialEq, Eq)]
pub struct Frame<T> {
    pub value: T,
    pub pause_ms: Option<u64>,
}

impl<T: Copy> Clone for Frame<T> {
    fn clone(&self) -> (r: Self)
        ensures
            r == *self,
    {
        *self
    }
}

impl<T: Copy> Copy for Frame<T> {

}

/// An animation from `from` to `to` in `steps` interpolated frames, each
/// followed by a pause of `delay_ms` milliseconds, and one closing frame that
/// holds `to` itself.
#[derive(Debug, PartialEq, Eq)]
pub struct AnimationPlan<T> {
    pub from: T,
    pub to: T,
    pub steps: u32,
    pub delay_ms: u64,
}

impl<T: Copy> Clone for AnimationPlan<T> {
    fn clone(&self) -> (r: Self)
        ensures
            r == *self,
    {
        *self
    }
}

impl<T: Copy> Copy for AnimationPlan<T> {

}

impl<T: Animated> AnimationPlan<T> {
    /// The number of frames: the interpolated ones and the closing one.
    pub open spec fn frame_count(self) -> nat {
        self.steps as nat + 1
    }

    /// Frame `k`, counted from 0. The first `steps` frames are interpolated
    /// and paused; the closing frame is the target, with no pause after it.
    pub open spec fn frame_at(self, k: int) -> Frame<T> {
        if k < self.steps {
            Frame {
                value: T::blend(self.from, self.to, self.steps as int, k + 1),
                pause_ms: Some(self.delay_ms),
            }
        } else {
            Frame { value: self.to, pause_ms: None }
        }
    }

    /// All frames of the plan, in the order in which they are applied.
    pub open spec fn frames(self) -> Seq<Frame<T>> {
        Seq::new(self.frame_count(), |k: int| self.frame_at(k))
    }
}

/// A cursor over the frames of one plan.
pub struct AnimationStepper<T: Animated> {
    plan: AnimationPlan<T>,
    issued: u64,
}

impl<T: Animated> AnimationStepper<T> {
    #[verifier::type_invariant]
    spec fn bounded(self) -> bool {
        self.issued <= self.plan.frame_count()
    }

    /// The plan that this stepper unfolds.
    pub closed spec fn plan(self) -> AnimationPlan<T> {
        self.plan
    }

    /// The frames that have not been handed out yet.
    pub closed spec fn pending(self) -> Seq<Frame<T>> {
        self.plan.frames().skip(self.issued as int)
    }

    /// Starts at the first frame of `plan`.
    pub fn new(plan: AnimationPlan<T>) -> (r: Self)
        ensures
            r.plan() == plan,
            r.pending() == plan.frames(),
    {
        let r = AnimationStepper { plan, issued: 0 };
        assert(r.plan.frames().skip(0) =~= r.plan.frames());
        r
    }

    /// Hands out the next frame, or `None` once every frame has been handed
    /// out; from then on the stepper no longer changes.
    pub fn next(&mut self) -> (r: Option<Frame<T>>)
        ensures
            final(self).plan() == old(self).plan(),
            old(self).pending().len() == 0 ==> r is None && final(self).pending() == old(
                self,
            ).pending(),
            old(self).pending().len() > 0 ==> r == Some(old(self).pending().first())
                && final(self).pending() == old(self).pending().drop_first(),
    {
        proof {
            use_type_invariant(&*self);
        }
        let steps: u64 = self.plan.steps as u64;
        if self.issued > steps {
            return None;
        }
        let frame = if self.issued < steps {
            let i: u32 = (self.issued + 1) as u32;
            Frame {
                value: T::blend_at(self.plan.from, self.plan.to, self.plan.steps, i),
                pause_ms: Some(self.plan.delay_ms),
            }
        } else {
            Frame { value: self.plan.to, pause_ms: None }
        };
        proof {
            let frames = self.plan.frames();
            assert(frames.skip(self.issued as int).first() == frame);
            assert(frames.skip(self.issued as int).drop_first() =~= frames.skip(
                self.issued as int + 1,
            ));
        }
        self.issued = self.issued + 1;
        Some(frame)
    }
}

/// An animation ends exactly on its target, whatever the step count and
/// however the division rounded on the way: the closing frame holds `to`
/// itself, and nothing is slept after it.
pub proof fn lemma_animation_ends_on_target<T: Animated>(plan: AnimationPlan<T>)
    ensures
        plan.frames().len() == plan.steps + 1,
        plan.frames().last() == (Frame { value: plan.to, pause_ms: None::<u64> }),
{
}

/// With no steps the target is applied at once: the plan is the closing
/// frame alone, so nothing is interpolated and nothing is slept.
pub proof fn lemma_zero_steps_apply_target_at_once<T: Animated>(plan: AnimationPlan<T>)
    requires
        plan.steps == 0,
    ensures
        plan.frames() == seq![Frame { value: plan.to, pause_ms: None::<u64> }],
{
    assert(plan.frames() =~= seq![Frame { value: plan.to, pause_ms: None::<u64> }]);
}

/// Every frame before the closing one of a resize is strictly linear in
/// its index, each channel by itself, stays between the two ends, and is
/// followed by the plan's delay.
pub proof fn lemma_resize_frames_are_linear(plan: AnimationPlan<PhysicalSize>, k: int)
    requires
        0 <= k < plan.steps,
    ensures
        plan.frames()[k].pause_ms == Some(plan.delay_ms),
        plan.frames()[k].value.width == lerp(
            plan.from.width as int,
            plan.to.width as int,
            plan.steps as int,
            k + 1,
        ),
        plan.frames()[k].value.height == lerp(
            plan.from.height as int,
            plan.to.height as int,
            plan.steps as int,
            k + 1,
        ),
        between(plan.from.width as int, plan.frames()[k].value.width as int, plan.to.width as int),
        between(
            plan.from.height as int,
            plan.frames()[k].value.height as int,
            plan.to.height as int,
        ),
{
    lemma_lerp_between(plan.from.width as int, plan.to.width as int, plan.steps as int, k + 1);
    lemma_lerp_between(plan.from.height as int, plan.to.height as int, plan.steps as int, k + 1);
}

/// Every frame before the closing one of a move is strictly linear in its
/// index, each channel by itself, stays between the two ends, and is
/// followed by the plan's delay.
pub proof fn lemma_move_frames_are_linear(plan: AnimationPlan<PhysicalPosition>, k: int)
    requires
        0 <= k < plan.steps,
    ensures
        plan.frames()[k].pause_ms == Some(plan.delay_ms),
        plan.frames()[k].value.x == lerp(
            plan.from.x as int,
            plan.to.x as int,
            plan.steps as int,
            k + 1,
        ),
        plan.frames()[k].value.y == lerp(
            plan.from.y as int,
            plan.to.y as int,
            plan.steps as int,
            k + 1,
        ),
        between(plan.from.x as int, plan.frames()[k].value.x as int, plan.to.x as int),
        between(plan.from.y as int, plan.frames()[k].value.y as int, plan.to.y as int),
{
    lemma_lerp_between(plan.from.x as int, plan.to.x as int, plan.steps as int, k + 1);
    lemma_lerp_between(plan.from.y as int, plan.to.y as int, plan.steps as int, k + 1);
}

} // verus!
