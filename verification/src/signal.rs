//! The signals that the widget sends to its visual layer.

use vstd::prelude::*;

verus! {

/// A signal for the visual layer. None is acknowledged.
#[derive(Clone, Copy, Debug, PartialEq, Eq, Structural)]
pub enum Signal {
    /// Follow mode has ended: the cursor came close enough to the dot.
    ExitFollowMode,
    /// Sent right after `ExitFollowMode`.
    OnboardingDone,
    /// The foreground application changed; sent with its display name.
    ActiveWindowChanged,
}

impl Signal {
    /// The name under which the visual layer listens for this signal.
    pub open spec fn name_spec(self) -> Seq<char> {
        match self {
            Signal::ExitFollowMode => "exit_follow_mode"@,
            Signal::OnboardingDone => "onboarding_done"@,
            Signal::ActiveWindowChanged => "active_window_changed"@,
        }
    }

    /// The name under which the visual layer listens for this signal.
    pub fn name(&self) -> (r: &'static str)
        ensures
            r@ == self.name_spec(),
    {
        match self {
            Signal::ExitFollowMode => "exit_follow_mode",
            Signal::OnboardingDone => "onboarding_done",
            Signal::ActiveWindowChanged => "active_window_changed",
        }
    }
}

} // verus!
