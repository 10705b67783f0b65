use vstd::prelude::*;

use crate::mode::{AnimationAdvanceMode, AnimationRepeatMode};
use crate::repeatable::{RepeatableAnimation, StepView, step_option_view};
use crate::step::AnimationStep;

verus! {

/// Steps that move on whenever asked to.
#[derive(Debug, Clone, PartialEq, Eq)]
pub struct AutomaticallyAdvancableAnimation {
    pub repeatable_animation: RepeatableAnimation,
}

impl AutomaticallyAdvancableAnimation {
    pub fn new(steps: Vec<AnimationStep>, repeat_mode: AnimationRepeatMode) -> (r: Self)
        ensures
            r.repeatable_animation == RepeatableAnimation::spec_new(steps, repeat_mode),
            r.repeatable_animation.wf(),
    {
        AutomaticallyAdvancableAnimation {
            repeatable_animation: RepeatableAnimation::new(steps, repeat_mode),
        }
    }

    /// The current step, if any.
    pub fn current_step(&self) -> (r: Option<AnimationStep>)
        requires
            self.repeatable_animation.wf(),
        ensures
            step_option_view(r) == self.repeatable_animation.spec_current(),
    {
        self.repeatable_animation.current_step()
    }

    /// Advances and returns the new current step, if any.
    pub fn next_step(&mut self) -> (r: Option<AnimationStep>)
        requires
            old(self).repeatable_animation.wf(),
        ensures
            final(self).repeatable_animation == old(self).repeatable_animation.spec_advanced(),
            final(self).repeatable_animation.wf(),
            step_option_view(r) == final(self).repeatable_animation.spec_current(),
    {
        self.repeatable_animation.next_step()
    }
}

/// Steps that move on only when an advance was requested beforehand.
#[derive(Debug, Clone, PartialEq, Eq)]
pub struct ManuallyAdvancableAnimation {
    pub repeatable_animation: RepeatableAnimation,
    pub is_advanced: bool,
}

impl ManuallyAdvancableAnimation {
    pub fn new(steps: Vec<AnimationStep>, repeat_mode: AnimationRepeatMode) -> (r: Self)
        ensures
            r.repeatable_animation == RepeatableAnimation::spec_new(steps, repeat_mode),
            r.repeatable_animation.wf(),
            !r.is_advanced,
    {
        ManuallyAdvancableAnimation {
            repeatable_animation: RepeatableAnimation::new(steps, repeat_mode),
            is_advanced: false,
        }
    }

    /// The current step, if any.
    pub fn current_step(&self) -> (r: Option<AnimationStep>)
        requires
            self.repeatable_animation.wf(),
        ensures
            step_option_view(r) == self.repeatable_animation.spec_current(),
    {
        self.repeatable_animation.current_step()
    }

    /// When an advance was requested, consumes the request, advances and
    /// returns the new current step, if any; otherwise changes nothing
    /// and returns `None`.
    pub fn next_step(&mut self) -> (r: Option<AnimationStep>)
        requires
            old(self).repeatable_animation.wf(),
        ensures
            final(self).repeatable_animation.wf(),
            !final(self).is_advanced,
            old(self).is_advanced ==> final(self).repeatable_animation
                == old(self).repeatable_animation.spec_advanced(),
            old(self).is_advanced ==> step_option_view(r)
                == final(self).repeatable_animation.spec_current(),
            !old(self).is_advanced ==> *final(self) == *old(self) && r is None,
    {
        if !self.is_advanced {
            return None;
        }
        self.is_advanced = false;
        self.repeatable_animation.next_step()
    }

    /// Lets the next call of `next_step` advance.
    pub fn advance(&mut self)
        ensures
            final(self).is_advanced,
            final(self).repeatable_animation == old(self).repeatable_animation,
    {
        self.is_advanced = true;
    }
}

/// Steps under a repeat policy and an advance policy.
#[derive(Debug, Clone, PartialEq, Eq)]
pub enum AdvancableAnimation {
    Manually(ManuallyAdvancableAnimation),
    Automatically(AutomaticallyAdvancableAnimation),
}

impl AdvancableAnimation {
    pub open spec fn repeatable(&self) -> RepeatableAnimation {
        match self {
            AdvancableAnimation::Manually(a) => a.repeatable_animation,
            AdvancableAnimation::Automatically(a) => a.repeatable_animation,
        }
    }

    /// Whether the next `next_step` may advance.
    pub open spec fn may_advance(&self) -> bool {
        match self {
            AdvancableAnimation::Manually(a) => a.is_advanced,
            AdvancableAnimation::Automatically(_) => true,
        }
    }

    pub open spec fn wf(&self) -> bool {
        self.repeatable().wf()
    }

    pub open spec fn spec_current(&self) -> Option<StepView> {
        self.repeatable().spec_current()
    }

    /// The state after `next_step`.
    pub open spec fn spec_next(self) -> Self {
        match self {
            AdvancableAnimation::Manually(a) => if a.is_advanced {
                AdvancableAnimation::Manually(
                    ManuallyAdvancableAnimation {
                        repeatable_animation: a.repeatable_animation.spec_advanced(),
                        is_advanced: false,
                    },
                )
            } else {
                self
            },
            AdvancableAnimation::Automatically(a) => AdvancableAnimation::Automatically(
                AutomaticallyAdvancableAnimation {
                    repeatable_animation: a.repeatable_animation.spec_advanced(),
                },
            ),
        }
    }

    /// The state after `advance`.
    pub open spec fn spec_advance(self) -> Self {
        match self {
            AdvancableAnimation::Manually(a) => AdvancableAnimation::Manually(
                ManuallyAdvancableAnimation { is_advanced: true, ..a },
            ),
            AdvancableAnimation::Automatically(_) => self,
        }
    }

    pub open spec fn spec_new(
        steps: Vec<AnimationStep>,
        repeat_mode: AnimationRepeatMode,
        advance_mode: AnimationAdvanceMode,
    ) -> Self {
        match advance_mode {
            AnimationAdvanceMode::Manual => AdvancableAnimation::Manually(
                ManuallyAdvancableAnimation {
                    repeatable_animation: RepeatableAnimation::spec_new(steps, repeat_mode),
                    is_advanced: false,
                },
            ),
            AnimationAdvanceMode::Auto => AdvancableAnimation::Automatically(
                AutomaticallyAdvancableAnimation {
                    repeatable_animation: RepeatableAnimation::spec_new(steps, repeat_mode),
                },
            ),
        }
    }

    pub fn new(
        steps: Vec<AnimationStep>,
        repeat_mode: AnimationRepeatMode,
        advance_mode: AnimationAdvanceMode,
    ) -> (r: Self)
        ensures
            r == AdvancableAnimation::spec_new(steps, repeat_mode, advance_mode),
            r.wf(),
    {
        match advance_mode {
            AnimationAdvanceMode::Manual => AdvancableAnimation::Manually(
                ManuallyAdvancableAnimation::new(steps, repeat_mode),
            ),
            AnimationAdvanceMode::Auto => AdvancableAnimation::Automatically(
                AutomaticallyAdvancableAnimation::new(steps, repeat_mode),
            ),
        }
    }

    /// The current step, if any; changes nothing.
    pub fn current_step(&self) -> (r: Option<AnimationStep>)
        requires
            self.wf(),
        ensures
            step_option_view(r) == self.spec_current(),
    {
        match self {
            AdvancableAnimation::Manually(a) => a.current_step(),
            AdvancableAnimation::Automatically(a) => a.current_step(),
        }
    }

    /// Advances when the advance policy allows it and returns the new
    /// current step; `None` when it did not advance or there is no step.
    pub fn next_step(&mut self) -> (r: Option<AnimationStep>)
        requires
            old(self).wf(),
        ensures
            *final(self) == old(self).spec_next(),
            final(self).wf(),
            step_option_view(r) == if old(self).may_advance() {
                final(self).spec_current()
            } else {
                None
            },
    {
        match self {
            AdvancableAnimation::Manually(a) => a.next_step(),
            AdvancableAnimation::Automatically(a) => a.next_step(),
        }
    }

    /// Under the manual policy, lets the next `next_step` advance; does
    /// nothing under the automatic one.
    pub fn advance(&mut self)
        ensures
            *final(self) == old(self).spec_advance(),
    {
        match self {
            AdvancableAnimation::Manually(a) => a.advance(),
            AdvancableAnimation::Automatically(_) => {},
        }
    }
}

} // verus!
