use vstd::prelude::*;

use crate::style::Symbol;

verus! {

/// A declarative selection of symbol positions for one animation step.
///
/// Within a step the targets are applied by priority, most specific
/// first: `Single`, `Range`, `Every`, `EveryFrom`, `ExceptEvery`,
/// `ExceptEveryFrom`, `Untouched`, `UntouchedThisStep`. A position is
/// styled by at most one target per step: the first that selects it.
#[derive(Debug, Clone, Copy, PartialEq, Eq, Hash, Structural)]
pub enum AnimationTarget {
    /// One position (a virtual x coordinate).
    Single(u16),
    /// The positions from the first to the second value, both included.
    Range(u16, u16),
    /// Every n-th position in ascending order, starting with the first
    /// one. Selects nothing when n is zero.
    Every(u16),
    /// Every n-th position in ascending order, starting with the one at
    /// the given offset (an index into the ordered positions).
    EveryFrom(u16, u16),
    /// All positions that `Every` with the same interval leaves out.
    ExceptEvery(u16),
    /// The positions from the given offset on that `EveryFrom` with the
    /// same values leaves out.
    ExceptEveryFrom(u16, u16),
    /// Positions that no step has styled since the animation started.
    Untouched,
    /// Positions that the step being applied has not styled yet.
    UntouchedThisStep,
}

impl Default for AnimationTarget {
    fn default() -> (r: Self)
        ensures
            r == AnimationTarget::Untouched,
    {
        AnimationTarget::Untouched
    }
}

/// State of a position while a step is being applied.
#[derive(Debug, Clone, Copy, PartialEq, Eq, Structural)]
pub enum StepSymbolState {
    /// Styled by the step being applied.
    Styled(Symbol),
    /// Never styled since the animation started.
    Initial(Symbol),
    /// Styled by an earlier step, not yet by this one.
    Untouched(Symbol),
}

impl StepSymbolState {
    pub open spec fn spec_symbol(self) -> Symbol {
        match self {
            StepSymbolState::Styled(s) => s,
            StepSymbolState::Initial(s) => s,
            StepSymbolState::Untouched(s) => s,
        }
    }

    /// The symbol held in this state.
    pub fn symbol(&self) -> (r: Symbol)
        ensures
            r == self.spec_symbol(),
    {
        match self {
            StepSymbolState::Styled(s) => *s,
            StepSymbolState::Initial(s) => *s,
            StepSymbolState::Untouched(s) => *s,
        }
    }
}

/// Rank of a target in the order of application: lower goes first.
pub open spec fn spec_priority(t: AnimationTarget) -> nat {
    match t {
        AnimationTarget::Single(_) => 0,
        AnimationTarget::Range(_, _) => 1,
        AnimationTarget::Every(_) => 2,
        AnimationTarget::EveryFrom(_, _) => 3,
        AnimationTarget::ExceptEvery(_) => 4,
        AnimationTarget::ExceptEveryFrom(_, _) => 5,
        AnimationTarget::Untouched => 6,
        AnimationTarget::UntouchedThisStep => 7,
    }
}

/// Number of priority ranks.
pub const PRIORITY_RANKS: u8 = 8;

/// Rank of a target in the order of application: lower goes first.
pub fn animation_target_priority(t: &AnimationTarget) -> (r: u8)
    ensures
        r as nat == spec_priority(*t),
        r < PRIORITY_RANKS,
{
    match t {
        AnimationTarget::Single(_) => 0,
        AnimationTarget::Range(_, _) => 1,
        AnimationTarget::Every(_) => 2,
        AnimationTarget::EveryFrom(_, _) => 3,
        AnimationTarget::ExceptEvery(_) => 4,
        AnimationTarget::ExceptEveryFrom(_, _) => 5,
        AnimationTarget::Untouched => 6,
        AnimationTarget::UntouchedThisStep => 7,
    }
}

/// Whether `t` selects the position `key`, found at `index` in the
/// ascending order of positions, in the given state.
pub open spec fn selects(t: AnimationTarget, index: int, key: u16, state: StepSymbolState) -> bool {
    match t {
        AnimationTarget::Single(x) => key == x,
        AnimationTarget::Range(start, end) => start <= key && key <= end,
        AnimationTarget::Every(n) => n > 0 && index % (n as int) == 0,
        AnimationTarget::EveryFrom(n, offset) => n > 0 && index >= offset && (index - offset) % (
        n as int) == 0,
        AnimationTarget::ExceptEvery(n) => !(n > 0 && index % (n as int) == 0),
        AnimationTarget::ExceptEveryFrom(n, offset) => index >= offset && !(n > 0 && (index
            - offset) % (n as int) == 0),
        AnimationTarget::Untouched => state is Initial,
        AnimationTarget::UntouchedThisStep => !(state is Styled),
    }
}

/// Whether `t` selects the position `key`, found at `index` in the
/// ascending order of positions, in the given state.
pub fn target_selects(t: &AnimationTarget, index: usize, key: u16, state: &StepSymbolState) -> (r:
    bool)
    ensures
        r == selects(*t, index as int, key, *state),
{
    match t {
        AnimationTarget::Single(x) => key == *x,
        AnimationTarget::Range(start, end) => *start <= key && key <= *end,
        AnimationTarget::Every(n) => *n > 0 && index % (*n as usize) == 0,
        AnimationTarget::EveryFrom(n, offset) => *n > 0 && index >= *offset as usize && (index
            - *offset as usize) % (*n as usize) == 0,
        AnimationTarget::ExceptEvery(n) => !(*n > 0 && index % (*n as usize) == 0),
        AnimationTarget::ExceptEveryFrom(n, offset) => index >= *offset as usize && !(*n > 0 && (
        index - *offset as usize) % (*n as usize) == 0),
        AnimationTarget::Untouched => matches!(state, StepSymbolState::Initial(_)),
        AnimationTarget::UntouchedThisStep => !matches!(state, StepSymbolState::Styled(_)),
    }
}

/// Whether the positions of `states` are in strictly ascending order.
pub open spec fn keys_ascending<T>(states: Seq<(u16, T)>) -> bool {
    forall|i: int, j: int| 0 <= i < j < states.len() ==> states[i].0 < states[j].0
}

/// The positions of `states` that `t` selects, in ascending order.
pub open spec fn selected_positions(t: AnimationTarget, states: Seq<(u16, StepSymbolState)>) -> Seq<
    u16,
>
    decreases states.len(),
{
    if states.len() == 0 {
        Seq::empty()
    } else {
        let rest = selected_positions(t, states.drop_last());
        let last = states.last();
        if selects(t, states.len() - 1, last.0, last.1) {
            rest.push(last.0)
        } else {
            rest
        }
    }
}

/// The positions from `start` to `end`, both included, ascending.
pub open spec fn range_positions(start: u16, end: u16) -> Seq<u16> {
    if start <= end {
        Seq::new((end - start + 1) as nat, |i: int| (start + i) as u16)
    } else {
        Seq::empty()
    }
}

/// The positions a target denotes, in ascending order: `Single(x)` is `x`
/// and `Range(a, b)` is `a..=b`, whether or not `states` holds them (the
/// caller guards); every other target selects among the positions of
/// `states` by their order and state.
pub open spec fn resolved(t: AnimationTarget, states: Seq<(u16, StepSymbolState)>) -> Seq<u16> {
    match t {
        AnimationTarget::Single(x) => seq![x],
        AnimationTarget::Range(start, end) => range_positions(start, end),
        _ => selected_positions(t, states),
    }
}

fn range_vec(start: u16, end: u16) -> (r: Vec<u16>)
    ensures
        r@ == range_positions(start, end),
{
    let mut r: Vec<u16> = Vec::new();
    if start > end {
        return r;
    }
    let mut x: u32 = start as u32;
    while x <= end as u32
        invariant
            start <= end,
            start <= x <= end as u32 + 1,
            r@ == Seq::new((x - start) as nat, |i: int| (start + i) as u16),
        decreases end as u32 + 1 - x,
    {
        r.push(x as u16);
        proof {
            assert(r@ =~= Seq::new((x + 1 - start) as nat, |i: int| (start + i) as u16));
        }
        x = x + 1;
    }
    r
}

/// Resolves a target against the current state of every position.
pub fn resolve_target(target: &AnimationTarget, states: &Vec<(u16, StepSymbolState)>) -> (r: Vec<
    u16>)
    ensures
        r@ == resolved(*target, states@),
{
    match target {
        AnimationTarget::Single(x) => {
            return vec![*x];
        },
        AnimationTarget::Range(start, end) => {
            return range_vec(*start, *end);
        },
        _ => {},
    }
    let mut r: Vec<u16> = Vec::new();
    let mut i: usize = 0;
    while i < states.len()
        invariant
            i <= states@.len(),
            r@ == selected_positions(*target, states@.subrange(0, i as int)),
            !(*target is Single) && !(*target is Range),
        decreases states@.len() - i,
    {
        proof {
            assert(states@.subrange(0, i + 1).drop_last() =~= states@.subrange(0, i as int));
        }
        let (key, state) = states[i];
        if target_selects(target, i, key, &state) {
            r.push(key);
        }
        i = i + 1;
    }
    proof {
        assert(states@.subrange(0, states@.len() as int) =~= states@);
    }
    r
}

/// Resolution is a function of the target and the states alone: the
/// same target resolved against the same states gives the same positions.
pub proof fn resolution_is_deterministic(
    t: AnimationTarget,
    a: Seq<(u16, StepSymbolState)>,
    b: Seq<(u16, StepSymbolState)>,
)
    requires
        a == b,
    ensures
        resolved(t, a) == resolved(t, b),
{
}

} // verus!
