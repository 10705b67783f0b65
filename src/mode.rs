use vstd::prelude::*;

use crate::step::AnimationStep;

verus! {

/// How often the full list of steps is played.
#[derive(Debug, Clone, Copy, PartialEq, Eq, Structural)]
pub enum AnimationRepeatMode {
    /// The steps repeat forever.
    Infinite,
    /// The steps are played the given number of times; zero plays them
    /// once, as one does.
    Finite(u16),
}

impl Default for AnimationRepeatMode {
    fn default() -> (r: Self)
        ensures
            r == AnimationRepeatMode::Infinite,
    {
        AnimationRepeatMode::Infinite
    }
}

/// What moves the animation on to its next step.
#[derive(Debug, Clone, Copy, PartialEq, Eq, Structural)]
pub enum AnimationAdvanceMode {
    /// The step changes once its duration has elapsed.
    Auto,
    /// The step changes once its duration has elapsed and an advance
    /// has been requested since the last change.
    Manual,
}

impl Default for AnimationAdvanceMode {
    fn default() -> (r: Self)
        ensures
            r == AnimationAdvanceMode::Auto,
    {
        AnimationAdvanceMode::Auto
    }
}

/// An animation's ordered steps with its repeat and advance policies.
#[derive(Debug, Clone, PartialEq, Eq)]
pub struct AnimationStyle {
    pub repeat_mode: AnimationRepeatMode,
    pub advance_mode: AnimationAdvanceMode,
    pub steps: Vec<AnimationStep>,
}

impl Default for AnimationStyle {
    fn default() -> (r: Self)
        ensures
            r.repeat_mode == AnimationRepeatMode::Infinite,
            r.advance_mode == AnimationAdvanceMode::Auto,
            r.steps@.len() == 0,
    {
        AnimationStyle {
            repeat_mode: AnimationRepeatMode::Infinite,
            advance_mode: AnimationAdvanceMode::Auto,
            steps: Vec::new(),
        }
    }
}

/// The views of a list of steps.
pub open spec fn steps_view(steps: Seq<AnimationStep>) -> Seq<(Seq<(crate::target::AnimationTarget, Seq<crate::action::AnimationAction>)>, u64)> {
    steps.map_values(|s: AnimationStep| s@)
}

impl AnimationStyle {
    /// A copy of this style.
    pub fn duplicate(&self) -> (r: Self)
        ensures
            r.repeat_mode == self.repeat_mode,
            r.advance_mode == self.advance_mode,
            steps_view(r.steps@) == steps_view(self.steps@),
    {
        let mut steps: Vec<AnimationStep> = Vec::new();
        let mut i: usize = 0;
        while i < self.steps.len()
            invariant
                i <= self.steps@.len(),
                steps_view(steps@) == steps_view(self.steps@.subrange(0, i as int)),
            decreases self.steps@.len() - i,
        {
            let step = self.steps[i].duplicate();
            let ghost before = steps@;
            steps.push(step);
            proof {
                assert(self.steps@.subrange(0, i + 1) =~= self.steps@.subrange(0, i as int).push(self.steps@[i as int]));
                assert(steps_view(self.steps@.subrange(0, i + 1)) =~= steps_view(self.steps@.subrange(0, i as int)).push(step@));
                assert(steps_view(steps@) =~= steps_view(before).push(step@));
            }
            i = i + 1;
        }
        proof {
            assert(self.steps@.subrange(0, self.steps@.len() as int) =~= self.steps@);
        }
        AnimationStyle { repeat_mode: self.repeat_mode, advance_mode: self.advance_mode, steps }
    }

    pub fn new(
        repeat_mode: AnimationRepeatMode,
        advance_mode: AnimationAdvanceMode,
        steps: Vec<AnimationStep>,
    ) -> (r: Self)
        ensures
            r.repeat_mode == repeat_mode,
            r.advance_mode == advance_mode,
            r.steps@ == steps@,
    {
        AnimationStyle { repeat_mode, advance_mode, steps }
    }
}

} // verus!
