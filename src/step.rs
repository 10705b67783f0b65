use vstd::prelude::*;

use crate::action::AnimationAction;
use crate::style::{Color, Modifier};
use crate::target::AnimationTarget;

verus! {

/// Copies a list of actions.
pub fn copy_actions(actions: &Vec<AnimationAction>) -> (r: Vec<AnimationAction>)
    ensures
        r@ == actions@,
{
    let mut r: Vec<AnimationAction> = Vec::new();
    let mut i: usize = 0;
    while i < actions.len()
        invariant
            i <= actions@.len(),
            r@ == actions@.subrange(0, i as int),
        decreases actions@.len() - i,
    {
        r.push(actions[i]);
        i = i + 1;
    }
    proof {
        assert(actions@.subrange(0, actions@.len() as int) =~= actions@);
    }
    r
}

/// A (target, actions) entry of a step, as plain values.
pub open spec fn entry_view(e: (AnimationTarget, Vec<AnimationAction>)) -> (
    AnimationTarget,
    Seq<AnimationAction>,
) {
    (e.0, e.1@)
}

/// One timed unit of an animation: the actions applied to each target,
/// and how long (in milliseconds) the step lasts.
#[derive(Debug, Clone, PartialEq, Eq)]
pub struct AnimationStep {
    pub actions: Vec<(AnimationTarget, Vec<AnimationAction>)>,
    pub duration: u64,
}

impl View for AnimationStep {
    type V = (Seq<(AnimationTarget, Seq<AnimationAction>)>, u64);

    open spec fn view(&self) -> Self::V {
        (self.actions@.map_values(|e: (AnimationTarget, Vec<AnimationAction>)| entry_view(e)), self.duration)
    }
}

/// Replaces the actions of `target` in `entries`, or adds the target at
/// the end if it is not there yet.
pub open spec fn with_entry(
    entries: Seq<(AnimationTarget, Seq<AnimationAction>)>,
    target: AnimationTarget,
    actions: Seq<AnimationAction>,
) -> Seq<(AnimationTarget, Seq<AnimationAction>)> {
    if exists|j: int| first_with_target(entries, target, j) {
        let j = choose|j: int| first_with_target(entries, target, j);
        entries.update(j, (target, actions))
    } else {
        entries.push((target, actions))
    }
}

/// `j` is the first index of an entry for `target`.
pub open spec fn first_with_target(
    entries: Seq<(AnimationTarget, Seq<AnimationAction>)>,
    target: AnimationTarget,
    j: int,
) -> bool {
    &&& 0 <= j < entries.len()
    &&& entries[j].0 == target
    &&& forall|k: int| 0 <= k < j ==> entries[k].0 != target
}

impl AnimationStep {
    /// A step from its (target, actions) entries, in the given order,
    /// and its duration in milliseconds.
    pub fn new(actions: Vec<(AnimationTarget, Vec<AnimationAction>)>, duration: u64) -> (r: Self)
        ensures
            r.actions@ == actions@,
            r.duration == duration,
    {
        AnimationStep { actions, duration }
    }

    /// A copy of this step.
    pub fn duplicate(&self) -> (r: Self)
        ensures
            r@ == self@,
    {
        let mut actions: Vec<(AnimationTarget, Vec<AnimationAction>)> = Vec::new();
        let mut i: usize = 0;
        while i < self.actions.len()
            invariant
                i <= self.actions@.len(),
                actions@.len() == i,
                forall|k: int| 0 <= k < i ==> entry_view(#[trigger] actions@[k]) == entry_view(
                    self.actions@[k],
                ),
            decreases self.actions@.len() - i,
        {
            let target = self.actions[i].0;
            let acts = copy_actions(&self.actions[i].1);
            actions.push((target, acts));
            i = i + 1;
        }
        let r = AnimationStep { actions, duration: self.duration };
        proof {
            assert(r@.0 =~= self@.0);
        }
        r
    }

    /// Sets the actions of `target`: an entry for the same target is
    /// replaced in place, otherwise the entry is added at the end.
    pub fn insert_entry(&mut self, target: AnimationTarget, actions: Vec<AnimationAction>)
        ensures
            final(self)@.0 == with_entry(old(self)@.0, target, actions@),
            final(self).duration == old(self).duration,
    {
        let ghost old_view = self@.0;
        let ghost old_duration = self.duration;
        let mut i: usize = 0;
        while i < self.actions.len()
            invariant
                i <= self.actions@.len(),
                self@.0 == old_view,
                self.duration == old_duration,
                old_duration == old(self).duration,
                old_view == old(self)@.0,
                forall|k: int| 0 <= k < i ==> (#[trigger] old_view[k]).0 != target,
            decreases self.actions@.len() - i,
        {
            if self.actions[i].0 == target {
                let ghost j = i as int;
                self.actions.set(i, (target, actions));
                proof {
                    assert(first_with_target(old_view, target, j));
                    let ej = choose|j: int| first_with_target(old_view, target, j);
                    assert(ej == j) by {
                        if ej > j {
                            assert(old_view[j].0 != target);
                        }
                    }
                    assert(self@.0 =~= old_view.update(j, (target, actions@)));
                }
                return ;
            }
            i = i + 1;
        }
        self.actions.push((target, actions));
        proof {
            assert(!exists|j: int| first_with_target(old_view, target, j));
            assert(self@.0 =~= old_view.push((target, actions@)));
        }
    }
}

/// Accumulates (target, actions) entries into an [`AnimationStep`].
#[derive(Debug, Clone, PartialEq, Eq)]
pub struct AnimationStepBuilder {
    pub duration: Option<u64>,
    pub entries: AnimationStep,
}

impl Default for AnimationStepBuilder {
    fn default() -> (r: Self)
        ensures
            r.duration is None,
            r.entries@.0.len() == 0,
    {
        AnimationStepBuilder { duration: None, entries: AnimationStep { actions: Vec::new(), duration: 0 } }
    }
}

impl AnimationStepBuilder {
    /// Sets how long the step lasts, in milliseconds.
    pub fn with_duration(self, duration: u64) -> (r: Self)
        ensures
            r.duration == Some(duration),
            r.entries@ == self.entries@,
    {
        AnimationStepBuilder { duration: Some(duration), entries: self.entries }
    }

    /// Starts the list of actions for `target`.
    pub fn for_target(self, target: AnimationTarget) -> (r: AnimationActionAccumulator)
        ensures
            r.target == target,
            r.actions@.len() == 0,
            r.step_builder.duration == self.duration,
            r.step_builder.entries@ == self.entries@,
    {
        AnimationActionAccumulator { target, actions: Vec::new(), step_builder: self }
    }

    /// The step: the accumulated entries, and the duration that was set
    /// (zero if none was).
    pub fn build(self) -> (r: AnimationStep)
        ensures
            r@.0 == self.entries@.0,
            r.duration == match self.duration {
                Some(d) => d,
                None => 0,
            },
    {
        let duration = match self.duration {
            Some(d) => d,
            None => 0,
        };
        AnimationStep { actions: self.entries.actions, duration }
    }
}

/// Accumulates the actions of one target, then folds them back into
/// the step builder.
#[derive(Debug, Clone, PartialEq, Eq)]
pub struct AnimationActionAccumulator {
    pub target: AnimationTarget,
    pub actions: Vec<AnimationAction>,
    pub step_builder: AnimationStepBuilder,
}

impl AnimationActionAccumulator {
    /// Adds an action that sets the character.
    pub fn update_character(self, character: char) -> (r: Self)
        ensures
            self.added(r, AnimationAction::UpdateCharacter(character)),
    {
        self.do_action(AnimationAction::UpdateCharacter(character))
    }

    /// Adds an action that sets the foreground color.
    pub fn update_foreground_color(self, color: Color) -> (r: Self)
        ensures
            self.added(r, AnimationAction::UpdateForegroundColor(color)),
    {
        self.do_action(AnimationAction::UpdateForegroundColor(color))
    }

    /// Adds an action that sets the background color.
    pub fn update_background_color(self, color: Color) -> (r: Self)
        ensures
            self.added(r, AnimationAction::UpdateBackgroundColor(color)),
    {
        self.do_action(AnimationAction::UpdateBackgroundColor(color))
    }

    /// Adds an action that sets the given emphasis flags.
    pub fn add_modifier(self, modifier: Modifier) -> (r: Self)
        ensures
            self.added(r, AnimationAction::AddModifier(modifier)),
    {
        self.do_action(AnimationAction::AddModifier(modifier))
    }

    /// Adds an action that clears the given emphasis flags.
    pub fn remove_modifier(self, modifier: Modifier) -> (r: Self)
        ensures
            self.added(r, AnimationAction::RemoveModifier(modifier)),
    {
        self.do_action(AnimationAction::RemoveModifier(modifier))
    }

    /// Adds an action that clears every emphasis flag.
    pub fn remove_all_modifiers(self) -> (r: Self)
        ensures
            self.added(r, AnimationAction::RemoveAllModifiers),
    {
        self.do_action(AnimationAction::RemoveAllModifiers)
    }

    /// `r` is `self` with `action` added at the end of its actions.
    pub open spec fn added(self, r: Self, action: AnimationAction) -> bool {
        &&& r.target == self.target
        &&& r.actions@ == self.actions@.push(action)
        &&& r.step_builder == self.step_builder
    }

    /// Adds an action at the end of the list.
    pub fn do_action(self, action: AnimationAction) -> (r: Self)
        ensures
            self.added(r, action),
    {
        let mut acc = self;
        acc.actions.push(action);
        acc
    }

    /// Folds the actions into the step builder: they replace those of an
    /// earlier entry for the same target, or are added at the end.
    pub fn then(self) -> (r: AnimationStepBuilder)
        ensures
            r.duration == self.step_builder.duration,
            r.entries@.0 == with_entry(self.step_builder.entries@.0, self.target, self.actions@),
    {
        let mut builder = self.step_builder;
        builder.entries.insert_entry(self.target, self.actions);
        builder
    }
}

} // verus!
