use vstd::prelude::*;

use crate::style::{Color, Modifier, Symbol};

verus! {

/// A single change that an animation step makes to a symbol.
#[derive(Debug, Clone, Copy, PartialEq, Eq, Hash, Structural)]
pub enum AnimationAction {
    UpdateCharacter(char),
    UpdateForegroundColor(Color),
    UpdateBackgroundColor(Color),
    AddModifier(Modifier),
    RemoveModifier(Modifier),
    RemoveAllModifiers,
}

/// The symbol that `action` makes of `s`.
pub open spec fn action_applied(s: Symbol, action: AnimationAction) -> Symbol {
    match action {
        AnimationAction::UpdateCharacter(c) => Symbol { value: c, ..s },
        AnimationAction::UpdateForegroundColor(c) => Symbol { foreground_color: c, ..s },
        AnimationAction::UpdateBackgroundColor(c) => Symbol { background_color: c, ..s },
        AnimationAction::AddModifier(m) => Symbol { modifier: s.modifier.spec_union(m), ..s },
        AnimationAction::RemoveModifier(m) => Symbol { modifier: s.modifier.spec_remove(m), ..s },
        AnimationAction::RemoveAllModifiers => Symbol { modifier: Modifier { bits: 0 }, ..s },
    }
}

/// The symbol that the actions make of `s`, applied first to last.
pub open spec fn actions_applied(s: Symbol, actions: Seq<AnimationAction>) -> Symbol
    decreases actions.len(),
{
    if actions.len() == 0 {
        s
    } else {
        action_applied(actions_applied(s, actions.drop_last()), actions.last())
    }
}

/// Applies one action to a symbol.
pub fn execute_action(symbol: &mut Symbol, action: AnimationAction)
    ensures
        *final(symbol) == action_applied(*old(symbol), action),
{
    match action {
        AnimationAction::UpdateCharacter(c) => {
            symbol.value = c;
        },
        AnimationAction::UpdateForegroundColor(c) => {
            symbol.foreground_color = c;
        },
        AnimationAction::UpdateBackgroundColor(c) => {
            symbol.background_color = c;
        },
        AnimationAction::AddModifier(m) => {
            symbol.modifier = symbol.modifier.union(m);
        },
        AnimationAction::RemoveModifier(m) => {
            symbol.modifier.remove(m);
        },
        AnimationAction::RemoveAllModifiers => {
            symbol.modifier = Modifier::empty();
        },
    }
}

/// Applies the actions to a symbol in list order.
pub fn execute_actions(symbol: Symbol, actions: &Vec<AnimationAction>) -> (r: Symbol)
    ensures
        r == actions_applied(symbol, actions@),
{
    let mut s = symbol;
    let mut i: usize = 0;
    while i < actions.len()
        invariant
            i <= actions@.len(),
            s == actions_applied(symbol, actions@.subrange(0, i as int)),
        decreases actions@.len() - i,
    {
        proof {
            assert(actions@.subrange(0, i + 1).drop_last() =~= actions@.subrange(0, i as int));
        }
        execute_action(&mut s, actions[i]);
        i = i + 1;
    }
    proof {
        assert(actions@.subrange(0, actions@.len() as int) =~= actions@);
    }
    s
}

} // verus!
