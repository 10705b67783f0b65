use std::collections::HashMap;
use std::time::Instant;

use vstd::prelude::*;

use crate::clock::{clock_now, millis_since};
use crate::action::{actions_applied, execute_actions, AnimationAction};
use crate::advancable::AdvancableAnimation;
use crate::mode::{steps_view, AnimationStyle};
use crate::repeatable::{step_option_view, StepView};
use crate::step::{first_with_target, AnimationStep};
use crate::style::Symbol;
use crate::target::{
    animation_target_priority, keys_ascending, selects, spec_priority, target_selects,
    AnimationTarget, StepSymbolState, PRIORITY_RANKS,
};

verus! {

broadcast use vstd::std_specs::hash::group_hash_axioms;

/// State of a position between steps.
#[derive(Debug, Clone, Copy, PartialEq, Eq, Structural)]
pub enum SymbolState {
    /// Styled by some step since the animation started.
    Styled(Symbol),
    /// Never styled since the animation started.
    Initial(Symbol),
}

/// What the last call of `next_frame` did.
#[derive(Debug, Clone, Copy, PartialEq, Eq, Hash, Structural)]
pub enum AnimationEvent {
    FrameGenerated,
    Ended,
}

/// The symbols to paint, by position.
#[derive(Debug, Clone, PartialEq, Eq)]
pub struct AnimationFrame {
    pub symbols: HashMap<u16, Symbol>,
}

pub open spec fn state_symbol(s: SymbolState) -> Symbol {
    match s {
        SymbolState::Styled(x) => x,
        SymbolState::Initial(x) => x,
    }
}

/// How a position enters a step: styled positions become untouched.
pub open spec fn step_state_of(s: SymbolState) -> StepSymbolState {
    match s {
        SymbolState::Styled(x) => StepSymbolState::Untouched(x),
        SymbolState::Initial(x) => StepSymbolState::Initial(x),
    }
}

/// How a position leaves a step: anything once styled stays styled.
pub open spec fn symbol_state_of(s: StepSymbolState) -> SymbolState {
    match s {
        StepSymbolState::Styled(x) => SymbolState::Styled(x),
        StepSymbolState::Initial(x) => SymbolState::Initial(x),
        StepSymbolState::Untouched(x) => SymbolState::Styled(x),
    }
}

/// `target` with `actions` applied to a step view: each position that the
/// target selects and that this step has not styled yet gets the actions.
pub open spec fn entry_applied(
    view: Seq<(u16, StepSymbolState)>,
    target: AnimationTarget,
    actions: Seq<AnimationAction>,
) -> Seq<(u16, StepSymbolState)> {
    Seq::new(
        view.len(),
        |i: int|
            if !(view[i].1 is Styled) && selects(target, i, view[i].0, view[i].1) {
                (view[i].0, StepSymbolState::Styled(actions_applied(view[i].1.spec_symbol(), actions)))
            } else {
                view[i]
            },
    )
}

/// The entries of rank `rank` applied in list order.
pub open spec fn pass_applied(
    view: Seq<(u16, StepSymbolState)>,
    entries: Seq<(AnimationTarget, Seq<AnimationAction>)>,
    rank: nat,
) -> Seq<(u16, StepSymbolState)>
    decreases entries.len(),
{
    if entries.len() == 0 {
        view
    } else {
        let before = pass_applied(view, entries.drop_last(), rank);
        let e = entries.last();
        if spec_priority(e.0) == rank {
            entry_applied(before, e.0, e.1)
        } else {
            before
        }
    }
}

/// The entries of ranks below `ranks` applied, rank by rank.
pub open spec fn ranks_applied(
    view: Seq<(u16, StepSymbolState)>,
    entries: Seq<(AnimationTarget, Seq<AnimationAction>)>,
    ranks: nat,
) -> Seq<(u16, StepSymbolState)>
    decreases ranks,
{
    if ranks == 0 {
        view
    } else {
        pass_applied(ranks_applied(view, entries, (ranks - 1) as nat), entries, (ranks - 1) as nat)
    }
}

/// The states of the positions after a step with these entries.
pub open spec fn step_result(
    states: Seq<(u16, SymbolState)>,
    entries: Seq<(AnimationTarget, Seq<AnimationAction>)>,
) -> Seq<(u16, SymbolState)> {
    ranks_applied(
        states.map_values(|e: (u16, SymbolState)| (e.0, step_state_of(e.1))),
        entries,
        PRIORITY_RANKS as nat,
    ).map_values(|e: (u16, StepSymbolState)| (e.0, symbol_state_of(e.1)))
}

/// The symbol of each position.
pub open spec fn frame_of(states: Seq<(u16, SymbolState)>) -> Map<u16, Symbol>
    decreases states.len(),
{
    if states.len() == 0 {
        Map::empty()
    } else {
        frame_of(states.drop_last()).insert(states.last().0, state_symbol(states.last().1))
    }
}

/// Applies one (target, actions) entry to a step view.
fn apply_entry(
    view: &mut Vec<(u16, StepSymbolState)>,
    target: &AnimationTarget,
    actions: &Vec<AnimationAction>,
)
    ensures
        final(view)@ == entry_applied(old(view)@, *target, actions@),
{
    let ghost v0 = view@;
    let mut i: usize = 0;
    while i < view.len()
        invariant
            v0 == old(view)@,
            view@.len() == v0.len(),
            i <= v0.len(),
            forall|k: int| 0 <= k < i ==> view@[k] == entry_applied(v0, *target, actions@)[k],
            forall|k: int| i <= k < v0.len() ==> view@[k] == v0[k],
        decreases v0.len() - i,
    {
        let (key, state) = view[i];
        let styled = matches!(state, StepSymbolState::Styled(_));
        if !styled && target_selects(target, i, key, &state) {
            let symbol = execute_actions(state.symbol(), actions);
            view.set(i, (key, StepSymbolState::Styled(symbol)));
        }
        i = i + 1;
    }
    proof {
        assert(view@ =~= entry_applied(v0, *target, actions@));
    }
}

/// Applies a step to the states of the positions: the entries go by
/// priority rank, and within a rank in list order.
fn process_step(states: &Vec<(u16, SymbolState)>, step: &AnimationStep) -> (r: Vec<
    (u16, SymbolState),
>)
    ensures
        r@ == step_result(states@, step@.0),
{
    let ghost entries = step@.0;
    let mut view: Vec<(u16, StepSymbolState)> = Vec::new();
    let mut i: usize = 0;
    while i < states.len()
        invariant
            i <= states@.len(),
            view@ == states@.subrange(0, i as int).map_values(
                |e: (u16, SymbolState)| (e.0, step_state_of(e.1)),
            ),
        decreases states@.len() - i,
    {
        let (key, state) = states[i];
        let s = match state {
            SymbolState::Styled(x) => StepSymbolState::Untouched(x),
            SymbolState::Initial(x) => StepSymbolState::Initial(x),
        };
        view.push((key, s));
        proof {
            assert(states@.subrange(0, i + 1).map_values(
                |e: (u16, SymbolState)| (e.0, step_state_of(e.1)),
            ) =~= states@.subrange(0, i as int).map_values(
                |e: (u16, SymbolState)| (e.0, step_state_of(e.1)),
            ).push((key, s)));
        }
        i = i + 1;
    }
    proof {
        assert(states@.subrange(0, states@.len() as int) =~= states@);
    }
    let ghost v0 = view@;
    let mut rank: u8 = 0;
    while rank < PRIORITY_RANKS
        invariant
            rank <= PRIORITY_RANKS,
            entries == step@.0,
            view@ == ranks_applied(v0, entries, rank as nat),
        decreases PRIORITY_RANKS - rank,
    {
        let mut j: usize = 0;
        while j < step.actions.len()
            invariant
                j <= entries.len(),
                entries == step@.0,
                entries.len() == step.actions@.len(),
                view@ == pass_applied(
                    ranks_applied(v0, entries, rank as nat),
                    entries.subrange(0, j as int),
                    rank as nat,
                ),
            decreases entries.len() - j,
        {
            proof {
                assert(entries.subrange(0, j + 1).drop_last() =~= entries.subrange(0, j as int));
            }
            let target = &step.actions[j].0;
            if animation_target_priority(target) == rank {
                apply_entry(&mut view, target, &step.actions[j].1);
            }
            j = j + 1;
        }
        proof {
            assert(entries.subrange(0, entries.len() as int) =~= entries);
        }
        rank = rank + 1;
    }
    let mut r: Vec<(u16, SymbolState)> = Vec::new();
    let mut k: usize = 0;
    while k < view.len()
        invariant
            k <= view@.len(),
            r@ == view@.subrange(0, k as int).map_values(
                |e: (u16, StepSymbolState)| (e.0, symbol_state_of(e.1)),
            ),
        decreases view@.len() - k,
    {
        let (key, s) = view[k];
        let t = match s {
            StepSymbolState::Styled(x) => SymbolState::Styled(x),
            StepSymbolState::Initial(x) => SymbolState::Initial(x),
            StepSymbolState::Untouched(x) => SymbolState::Styled(x),
        };
        r.push((key, t));
        proof {
            assert(view@.subrange(0, k + 1).map_values(
                |e: (u16, StepSymbolState)| (e.0, symbol_state_of(e.1)),
            ) =~= view@.subrange(0, k as int).map_values(
                |e: (u16, StepSymbolState)| (e.0, symbol_state_of(e.1)),
            ).push((key, t)));
        }
        k = k + 1;
    }
    proof {
        assert(view@.subrange(0, view@.len() as int) =~= view@);
    }
    r
}

/// The state of positions keeps each key in place.
proof fn lemma_entry_keys(
    view: Seq<(u16, StepSymbolState)>,
    target: AnimationTarget,
    actions: Seq<AnimationAction>,
)
    ensures
        entry_applied(view, target, actions).len() == view.len(),
        forall|i: int|
            0 <= i < view.len() ==> (#[trigger] entry_applied(view, target, actions)[i]).0
                == view[i].0,
{
}

proof fn lemma_pass_keys(
    view: Seq<(u16, StepSymbolState)>,
    entries: Seq<(AnimationTarget, Seq<AnimationAction>)>,
    rank: nat,
)
    ensures
        pass_applied(view, entries, rank).len() == view.len(),
        forall|i: int|
            0 <= i < view.len() ==> (#[trigger] pass_applied(view, entries, rank)[i]).0
                == view[i].0,
    decreases entries.len(),
{
    if entries.len() > 0 {
        lemma_pass_keys(view, entries.drop_last(), rank);
        let before = pass_applied(view, entries.drop_last(), rank);
        lemma_entry_keys(before, entries.last().0, entries.last().1);
    }
}

proof fn lemma_ranks_keys(
    view: Seq<(u16, StepSymbolState)>,
    entries: Seq<(AnimationTarget, Seq<AnimationAction>)>,
    ranks: nat,
)
    ensures
        ranks_applied(view, entries, ranks).len() == view.len(),
        forall|i: int|
            0 <= i < view.len() ==> (#[trigger] ranks_applied(view, entries, ranks)[i]).0
                == view[i].0,
    decreases ranks,
{
    if ranks > 0 {
        lemma_ranks_keys(view, entries, (ranks - 1) as nat);
        lemma_pass_keys(
            ranks_applied(view, entries, (ranks - 1) as nat),
            entries,
            (ranks - 1) as nat,
        );
    }
}

/// A step keeps the positions, in their order.
pub proof fn lemma_step_result_keys(
    states: Seq<(u16, SymbolState)>,
    entries: Seq<(AnimationTarget, Seq<AnimationAction>)>,
)
    ensures
        step_result(states, entries).len() == states.len(),
        forall|i: int|
            0 <= i < states.len() ==> (#[trigger] step_result(states, entries)[i]).0
                == states[i].0,
{
    let v = states.map_values(|e: (u16, SymbolState)| (e.0, step_state_of(e.1)));
    lemma_ranks_keys(v, entries, PRIORITY_RANKS as nat);
}

/// The frame of the states.
fn make_frame(states: &Vec<(u16, SymbolState)>) -> (r: AnimationFrame)
    ensures
        r.symbols@ == frame_of(states@),
{
    let mut symbols: HashMap<u16, Symbol> = HashMap::new();
    let mut i: usize = 0;
    while i < states.len()
        invariant
            i <= states@.len(),
            symbols@ == frame_of(states@.subrange(0, i as int)),
        decreases states@.len() - i,
    {
        proof {
            assert(states@.subrange(0, i + 1).drop_last() =~= states@.subrange(0, i as int));
        }
        let (key, state) = states[i];
        let symbol = match state {
            SymbolState::Styled(x) => x,
            SymbolState::Initial(x) => x,
        };
        symbols.insert(key, symbol);
        i = i + 1;
    }
    proof {
        assert(states@.subrange(0, states@.len() as int) =~= states@);
    }
    AnimationFrame { symbols }
}

/// The abstract state of an [`Animation`].
pub struct AnimationModel {
    pub advancable: AdvancableAnimation,
    pub states: Seq<(u16, SymbolState)>,
    pub is_paused: bool,
    pub resume_pending: bool,
    pub step_applied: bool,
    pub last_step_retrieved_at: Option<u64>,
    pub last_event: Option<AnimationEvent>,
}

impl AnimationModel {
    /// The step a frame at time `now` shows, whether it was just
    /// retrieved, and the state once it is chosen.
    pub open spec fn select(self, now: u64) -> (AnimationModel, Option<StepView>, bool) {
        if self.is_paused {
            (self, self.advancable.spec_current(), false)
        } else if self.last_step_retrieved_at is None || self.resume_pending {
            (
                AnimationModel { last_step_retrieved_at: Some(now), resume_pending: false, ..self },
                self.advancable.spec_current(),
                false,
            )
        } else {
            let last = self.last_step_retrieved_at.unwrap();
            match self.advancable.spec_current() {
                None => (self, None, false),
                Some(current) => if now >= last && now - last >= current.1 {
                    let next = self.advancable.spec_next();
                    if self.advancable.may_advance() && next.spec_current() is Some {
                        (
                            AnimationModel {
                                advancable: next,
                                last_step_retrieved_at: Some(now),
                                ..self
                            },
                            next.spec_current(),
                            true,
                        )
                    } else {
                        (AnimationModel { advancable: next, ..self }, next.spec_current(), false)
                    }
                } else {
                    (self, Some(current), false)
                },
            }
        }
    }

    /// The state after a frame is asked for at time `now`, and the frame.
    pub open spec fn next_frame(self, now: u64) -> (AnimationModel, Option<Map<u16, Symbol>>) {
        let (m, step, is_new) = self.select(now);
        match step {
            None => (AnimationModel { last_event: Some(AnimationEvent::Ended), ..m }, None),
            Some(s) => {
                let states = if is_new || !m.step_applied {
                    step_result(m.states, s.0)
                } else {
                    m.states
                };
                (
                    AnimationModel {
                        states,
                        step_applied: true,
                        last_event: Some(AnimationEvent::FrameGenerated),
                        ..m
                    },
                    Some(frame_of(states)),
                )
            },
        }
    }

    pub open spec fn paused(self) -> AnimationModel {
        AnimationModel { is_paused: true, ..self }
    }

    pub open spec fn unpaused(self) -> AnimationModel {
        if self.is_paused {
            AnimationModel { is_paused: false, resume_pending: true, ..self }
        } else {
            self
        }
    }

    pub open spec fn advanced(self) -> AnimationModel {
        AnimationModel { advancable: self.advancable.spec_advance(), ..self }
    }

    pub open spec fn wf(self) -> bool {
        &&& self.advancable.wf()
        &&& keys_ascending(self.states)
    }
}

/// `m` is a fresh animation of `style` (up to copies of its steps) over
/// the positions of `symbols`, each in its initial state.
pub open spec fn started_from(m: AnimationModel, style: AnimationStyle, symbols: Map<u16, Symbol>) -> bool {
    &&& exists|steps: Vec<AnimationStep>|
        steps_view(steps@) == steps_view(style.steps@) && m.advancable
            == AdvancableAnimation::spec_new(steps, style.repeat_mode, style.advance_mode)
    &&& frame_of(m.states) == symbols
    &&& forall|i: int| 0 <= i < m.states.len() ==> m.states[i].1 is Initial
    &&& !m.is_paused
    &&& !m.resume_pending
    &&& !m.step_applied
    &&& m.last_step_retrieved_at is None
    &&& m.last_event is None
}

/// The frame of an optional frame.
pub open spec fn frame_option_view(r: Option<AnimationFrame>) -> Option<Map<u16, Symbol>> {
    match r {
        Some(f) => Some(f.symbols@),
        None => None,
    }
}

/// A running animation: its steps under their policies, the state of
/// every position, and its timing.
pub struct Animation {
    pub advancable_animation: AdvancableAnimation,
    /// States of the positions, in ascending order of position.
    pub symbol_states: Vec<(u16, SymbolState)>,
    pub is_paused: bool,
    /// Set by `unpause`: the next frame restarts the step's timing.
    pub resume_pending: bool,
    /// Whether the current step has been applied to the states.
    pub step_applied: bool,
    /// Time (milliseconds) at which the current step was retrieved.
    pub last_step_retrieved_at: Option<u64>,
    pub last_event: Option<AnimationEvent>,
    /// Origin of the times that `next_frame` reads from the clock.
    pub clock_origin: Instant,
}

impl View for Animation {
    type V = AnimationModel;

    open spec fn view(&self) -> AnimationModel {
        AnimationModel {
            advancable: self.advancable_animation,
            states: self.symbol_states@,
            is_paused: self.is_paused,
            resume_pending: self.resume_pending,
            step_applied: self.step_applied,
            last_step_retrieved_at: self.last_step_retrieved_at,
            last_event: self.last_event,
        }
    }
}

impl Animation {
    pub open spec fn wf(&self) -> bool {
        self@.wf()
    }

    /// An animation of `style` over the positions of `symbols`, each in
    /// its initial state; no step is applied yet.
    pub fn new(style: AnimationStyle, symbols: HashMap<u16, Symbol>) -> (r: Self)
        ensures
            r.wf(),
            r@.advancable == AdvancableAnimation::spec_new(
                style.steps,
                style.repeat_mode,
                style.advance_mode,
            ),
            started_from(r@, style, symbols@),
    {
        let advancable_animation = AdvancableAnimation::new(
            style.steps,
            style.repeat_mode,
            style.advance_mode,
        );
        let mut states: Vec<(u16, SymbolState)> = Vec::new();
        let mut k: u32 = 0;
        while k <= u16::MAX as u32
            invariant
                k <= u16::MAX as u32 + 1,
                keys_ascending(states@),
                forall|i: int| 0 <= i < states@.len() ==> states@[i].0 < k,
                forall|i: int| 0 <= i < states@.len() ==> states@[i].1 is Initial,
                forall|x: u16|
                    #[trigger] frame_of(states@).contains_key(x) <==> (x < k
                        && symbols@.contains_key(x)),
                forall|x: u16|
                    #[trigger] frame_of(states@).contains_key(x) ==> frame_of(states@)[x]
                        == symbols@[x],
            decreases u16::MAX as u32 + 1 - k,
        {
            let key = k as u16;
            match symbols.get(&key) {
                Some(symbol) => {
                    let ghost before = states@;
                    states.push((key, SymbolState::Initial(*symbol)));
                    proof {
                        assert(symbols@.contains_key(key) && symbols@[key] == *symbol);
                        assert(states@.drop_last() =~= before);
                        assert(frame_of(states@) == frame_of(before).insert(key, *symbol));
                    }
                },
                None => {
                    assert(!symbols@.contains_key(key));
                },
            }
            k = k + 1;
        }
        proof {
            assert(frame_of(states@) =~= symbols@);
        }
        let ghost steps = style.steps;
        let r = Animation {
            advancable_animation,
            symbol_states: states,
            is_paused: false,
            resume_pending: false,
            step_applied: false,
            last_step_retrieved_at: None,
            last_event: None,
            clock_origin: clock_now(),
        };
        proof {
            assert(steps_view(steps@) == steps_view(style.steps@));
        }
        r
    }

    /// The event of the last frame request, once; later calls give `None`
    /// until the next request.
    pub fn take_last_event(&mut self) -> (r: Option<AnimationEvent>)
        ensures
            r == old(self)@.last_event,
            final(self)@ == (AnimationModel { last_event: None, ..old(self)@ }),
    {
        let r = self.last_event;
        self.last_event = None;
        r
    }

    /// Chooses the step that a frame at time `now` shows.
    fn select_step(&mut self, now: u64) -> (r: (Option<AnimationStep>, bool))
        requires
            old(self).wf(),
        ensures
            final(self).wf(),
            (final(self)@, step_option_view(r.0), r.1) == old(self)@.select(now),
            final(self).symbol_states@ == old(self).symbol_states@,
    {
        if self.is_paused {
            return (self.advancable_animation.current_step(), false);
        }
        if self.last_step_retrieved_at.is_none() || self.resume_pending {
            self.last_step_retrieved_at = Some(now);
            self.resume_pending = false;
            return (self.advancable_animation.current_step(), false);
        }
        let last = match self.last_step_retrieved_at {
            Some(t) => t,
            None => 0,
        };
        let current = self.advancable_animation.current_step();
        match current {
            None => (None, false),
            Some(current) => {
                if now >= last && now - last >= current.duration {
                    let next = self.advancable_animation.next_step();
                    match next {
                        Some(step) => {
                            self.last_step_retrieved_at = Some(now);
                            (Some(step), true)
                        },
                        None => (self.advancable_animation.current_step(), false),
                    }
                } else {
                    (Some(current), false)
                }
            },
        }
    }

    /// The frame at time `now` (milliseconds on a monotonic clock).
    ///
    /// The first request, and the first after `unpause`, shows the
    /// current step and starts its timing at `now`. While paused, the
    /// current step is shown and the timing is left alone. Otherwise,
    /// once the current step has lasted its duration, the advance policy
    /// is asked for the next step; a step retrieved that way is applied
    /// and its timing starts at `now`. A step is applied to the states
    /// once, when it becomes current; until the next one the frame shows
    /// what it made. `None` once no step is left.
    pub fn next_frame_at(&mut self, now: u64) -> (r: Option<AnimationFrame>)
        requires
            old(self).wf(),
        ensures
            final(self).wf(),
            (final(self)@, frame_option_view(r)) == old(self)@.next_frame(now),
    {
        let (step, is_new) = self.select_step(now);
        match step {
            None => {
                self.last_event = Some(AnimationEvent::Ended);
                None
            },
            Some(step) => {
                if is_new || !self.step_applied {
                    let states = process_step(&self.symbol_states, &step);
                    proof {
                        lemma_step_result_keys(self.symbol_states@, step@.0);
                    }
                    self.symbol_states = states;
                }
                self.step_applied = true;
                self.last_event = Some(AnimationEvent::FrameGenerated);
                Some(make_frame(&self.symbol_states))
            },
        }
    }

    /// The frame now: [`Animation::next_frame_at`] at the time read from
    /// the monotonic clock, counted from the animation's creation.
    pub fn next_frame(&mut self) -> (r: Option<AnimationFrame>)
        requires
            old(self).wf(),
        ensures
            final(self).wf(),
            exists|now: u64| (final(self)@, frame_option_view(r)) == #[trigger] old(self)@.next_frame(now),
    {
        let now = millis_since(&self.clock_origin);
        self.next_frame_at(now)
    }

    /// Stops the animation from moving on; frames keep showing the
    /// current step.
    pub fn pause(&mut self)
        ensures
            final(self)@ == old(self)@.paused(),
    {
        self.is_paused = true;
    }

    /// Lets a paused animation move on again; its timing restarts at the
    /// next frame. Does nothing when it is not paused.
    pub fn unpause(&mut self)
        ensures
            final(self)@ == old(self)@.unpaused(),
    {
        if self.is_paused {
            self.is_paused = false;
            self.resume_pending = true;
        }
    }

    /// Requests an advance; it only matters under the manual policy.
    pub fn advance(&mut self)
        ensures
            final(self)@ == old(self)@.advanced(),
    {
        self.advancable_animation.advance();
    }
}

/// A position this step has styled keeps its state for the rest of it.
proof fn lemma_styled_kept_entry(
    view: Seq<(u16, StepSymbolState)>,
    target: AnimationTarget,
    actions: Seq<AnimationAction>,
    i: int,
)
    requires
        0 <= i < view.len(),
        view[i].1 is Styled,
    ensures
        entry_applied(view, target, actions)[i] == view[i],
{
}

proof fn lemma_styled_kept_pass(
    view: Seq<(u16, StepSymbolState)>,
    entries: Seq<(AnimationTarget, Seq<AnimationAction>)>,
    rank: nat,
    i: int,
)
    requires
        0 <= i < view.len(),
        view[i].1 is Styled,
    ensures
        pass_applied(view, entries, rank)[i] == view[i],
    decreases entries.len(),
{
    if entries.len() > 0 {
        lemma_styled_kept_pass(view, entries.drop_last(), rank, i);
        lemma_pass_keys(view, entries.drop_last(), rank);
        let before = pass_applied(view, entries.drop_last(), rank);
        lemma_styled_kept_entry(before, entries.last().0, entries.last().1, i);
    }
}

proof fn lemma_styled_kept_ranks(
    view: Seq<(u16, StepSymbolState)>,
    entries: Seq<(AnimationTarget, Seq<AnimationAction>)>,
    ranks: nat,
    i: int,
)
    requires
        ranks >= 1,
        0 <= i < view.len(),
        ranks_applied(view, entries, 1)[i].1 is Styled,
    ensures
        ranks_applied(view, entries, ranks)[i] == ranks_applied(view, entries, 1)[i],
    decreases ranks,
{
    if ranks > 1 {
        lemma_styled_kept_ranks(view, entries, (ranks - 1) as nat, i);
        lemma_ranks_keys(view, entries, (ranks - 1) as nat);
        lemma_styled_kept_pass(
            ranks_applied(view, entries, (ranks - 1) as nat),
            entries,
            (ranks - 1) as nat,
            i,
        );
    }
}

/// In the pass of `Single` targets, the first entry for `Single(x)`
/// styles position `x`, and no other entry of the pass touches it.
proof fn lemma_single_pass(
    view: Seq<(u16, StepSymbolState)>,
    entries: Seq<(AnimationTarget, Seq<AnimationAction>)>,
    full: Seq<(AnimationTarget, Seq<AnimationAction>)>,
    x: u16,
    j: int,
    i: int,
)
    requires
        0 <= i < view.len(),
        view[i].0 == x,
        !(view[i].1 is Styled),
        first_with_target(full, AnimationTarget::Single(x), j),
        entries.len() <= full.len(),
        forall|k: int| 0 <= k < entries.len() ==> entries[k] == full[k],
    ensures
        entries.len() <= j ==> pass_applied(view, entries, 0)[i] == view[i],
        entries.len() > j ==> pass_applied(view, entries, 0)[i] == (
            x,
            StepSymbolState::Styled(actions_applied(view[i].1.spec_symbol(), full[j].1)),
        ),
    decreases entries.len(),
{
    if entries.len() > 0 {
        let rest = entries.drop_last();
        lemma_single_pass(view, rest, full, x, j, i);
        lemma_pass_keys(view, rest, 0);
        let before = pass_applied(view, rest, 0);
        let k = entries.len() - 1;
        if entries.len() > j + 1 {
            lemma_styled_kept_entry(before, entries.last().0, entries.last().1, i);
        }
        if k < j {
            assert(full[k].0 != AnimationTarget::Single(x));
        }
    }
}

/// Priority ordering: a position named by a `Single` target gets that
/// target's actions and no other entry's, whatever other targets of the
/// step (an `Every`, a `Range`, ...) also select it. With several entries
/// for the same `Single` target, the first one counts.
pub proof fn single_target_wins(
    states: Seq<(u16, SymbolState)>,
    entries: Seq<(AnimationTarget, Seq<AnimationAction>)>,
    x: u16,
    j: int,
    i: int,
)
    requires
        0 <= i < states.len(),
        states[i].0 == x,
        first_with_target(entries, AnimationTarget::Single(x), j),
    ensures
        step_result(states, entries)[i] == (
            x,
            SymbolState::Styled(actions_applied(state_symbol(states[i].1), entries[j].1)),
        ),
{
    let v = states.map_values(|e: (u16, SymbolState)| (e.0, step_state_of(e.1)));
    lemma_single_pass(v, entries, entries, x, j, i);
    assert(ranks_applied(v, entries, 0) == v);
    assert(ranks_applied(v, entries, 1) == pass_applied(v, entries, 0));
    lemma_styled_kept_ranks(v, entries, PRIORITY_RANKS as nat, i);
    lemma_ranks_keys(v, entries, PRIORITY_RANKS as nat);
}

/// Priority ordering, on frames: whenever a frame applies a step (the
/// first frame, or one that moves on to a new step), a position named by
/// a `Single` target of that step shows that target's actions applied to
/// its previous symbol, whatever broader targets of the step also select
/// it.
pub proof fn frame_applies_single_first(m: AnimationModel, now: u64, x: u16, j: int, i: int)
    requires
        m.wf(),
        0 <= i < m.states.len(),
        m.states[i].0 == x,
        ({
            let (sel, step, is_new) = m.select(now);
            &&& step is Some
            &&& (is_new || !sel.step_applied)
            &&& first_with_target(step.unwrap().0, AnimationTarget::Single(x), j)
        }),
    ensures
        m.next_frame(now).0.states[i] == (
            x,
            SymbolState::Styled(
                actions_applied(state_symbol(m.states[i].1), m.select(now).1.unwrap().0[j].1),
            ),
        ),
        m.next_frame(now).1 == Some(frame_of(m.next_frame(now).0.states)),
{
    single_target_wins(m.states, m.select(now).1.unwrap().0, x, j, i);
}

/// Manual gating: without an advance request in between, two frames in a
/// row under the manual policy are the same, whenever they are asked for.
pub proof fn manual_frames_hold_without_advance(m: AnimationModel, t1: u64, t2: u64)
    requires
        m.wf(),
        m.advancable is Manually,
        !m.advancable.may_advance(),
    ensures
        m.next_frame(t1).1 == m.next_frame(t1).0.next_frame(t2).1,
        m.next_frame(t1).0.advancable == m.advancable,
{
}

/// Manual gating: once its duration has elapsed, an advance request
/// followed by a frame moves the repetition on by exactly one step, uses
/// up the request, and the frame shows that step applied to the states.
pub proof fn manual_advance_moves_one_step(m: AnimationModel, now: u64)
    requires
        m.wf(),
        m.advancable is Manually,
        !m.is_paused,
        !m.resume_pending,
        m.last_step_retrieved_at is Some,
        m.advancable.spec_current() is Some,
        now >= m.last_step_retrieved_at.unwrap(),
        now - m.last_step_retrieved_at.unwrap() >= m.advancable.spec_current().unwrap().1,
    ensures
        ({
            let (after, frame) = m.advanced().next_frame(now);
            &&& after.advancable.repeatable() == m.advancable.repeatable().spec_advanced()
            &&& !after.advancable.may_advance()
            &&& match after.advancable.spec_current() {
                Some(s) => frame == Some(frame_of(step_result(m.states, s.0))),
                None => frame is None,
            }
        }),
{
}

/// Pause idempotence: pausing twice is pausing once.
pub proof fn pause_is_idempotent(m: AnimationModel)
    ensures
        m.paused().paused() == m.paused(),
{
}

/// Pause idempotence: while paused, frames do not change, whenever they
/// are asked for, and neither the steps nor their timing move.
pub proof fn paused_frames_hold(m: AnimationModel, t1: u64, t2: u64)
    requires
        m.wf(),
        m.is_paused,
    ensures
        ({
            let (m1, f1) = m.next_frame(t1);
            let (m2, f2) = m1.next_frame(t2);
            &&& f1 == f2
            &&& m1.is_paused
            &&& m1.advancable == m.advancable
            &&& m1.last_step_retrieved_at == m.last_step_retrieved_at
            &&& m2.advancable == m.advancable
            &&& m2.last_step_retrieved_at == m.last_step_retrieved_at
        }),
{
}

/// After `unpause`, timing restarts at the next frame: that frame keeps the
/// current step, and the step then lasts its full duration from there.
pub proof fn unpause_restarts_timing(m: AnimationModel, t: u64, later: u64)
    requires
        m.wf(),
        m.is_paused,
        m.advancable.spec_current() is Some,
        t <= later,
        later - t < m.advancable.spec_current().unwrap().1,
    ensures
        ({
            let (m1, f1) = m.unpaused().next_frame(t);
            let (m2, f2) = m1.next_frame(later);
            &&& m1.last_step_retrieved_at == Some(t)
            &&& m1.advancable == m.advancable
            &&& m2.advancable == m.advancable
            &&& f2 == f1
        }),
{
}

} // verus!
