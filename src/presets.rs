use vstd::prelude::*;

use crate::action::{action_applied, actions_applied, AnimationAction};
use crate::mode::{steps_view, AnimationAdvanceMode, AnimationRepeatMode, AnimationStyle};
use crate::repeatable::StepView;
use crate::step::{with_entry, AnimationStep};
use crate::style::{Color, Modifier, Symbol};
use crate::target::AnimationTarget;
use crate::text::{
    find_position_style, find_untouched_style, position_style, text_chars, SmallTextStyle,
};

verus! {

/// The actions that turn any symbol into `s`.
pub open spec fn set_symbol_actions(s: Symbol) -> Seq<AnimationAction> {
    seq![
        AnimationAction::UpdateCharacter(s.value),
        AnimationAction::UpdateForegroundColor(s.foreground_color),
        AnimationAction::UpdateBackgroundColor(s.background_color),
        AnimationAction::RemoveAllModifiers,
        AnimationAction::AddModifier(s.modifier),
    ]
}

/// Applying [`set_symbol_actions`] gives exactly the symbol.
pub proof fn set_symbol_actions_set(any: Symbol, s: Symbol)
    ensures
        actions_applied(any, set_symbol_actions(s)) == s,
{
    let a = set_symbol_actions(s);
    let a4 = a.drop_last();
    let a3 = a4.drop_last();
    let a2 = a3.drop_last();
    let a1 = a2.drop_last();
    let a0 = a1.drop_last();
    assert(a0 =~= Seq::<AnimationAction>::empty());
    assert(actions_applied(any, a0) == any);
    assert(a1.last() == a[0] && a2.last() == a[1] && a3.last() == a[2] && a4.last() == a[3]);
    let s1 = actions_applied(any, a1);
    assert(s1 == action_applied(any, a[0]));
    let s2 = actions_applied(any, a2);
    assert(s2 == action_applied(s1, a[1]));
    let s3 = actions_applied(any, a3);
    assert(s3 == action_applied(s2, a[2]));
    let s4 = actions_applied(any, a4);
    assert(s4 == action_applied(s3, a[3]));
    let m = s.modifier.bits;
    assert(0u16 | m == m) by (bit_vector);
    assert(actions_applied(any, a) == action_applied(s4, a[4]));
}

/// An entry that sets position `x` to symbol `s`.
fn set_symbol_entry(x: u16, s: Symbol) -> (r: (AnimationTarget, Vec<AnimationAction>))
    ensures
        r.0 == AnimationTarget::Single(x),
        r.1@ == set_symbol_actions(s),
{
    let actions = vec![
        AnimationAction::UpdateCharacter(s.value),
        AnimationAction::UpdateForegroundColor(s.foreground_color),
        AnimationAction::UpdateBackgroundColor(s.background_color),
        AnimationAction::RemoveAllModifiers,
        AnimationAction::AddModifier(s.modifier),
    ];
    (AnimationTarget::Single(x), actions)
}

/// The symbols of a styled text, position by position.
pub open spec fn styled_symbols(text_style: SmallTextStyle) -> Seq<Symbol> {
    Seq::new(
        text_style.text@.len(),
        |x: int| Symbol::spec_new(text_style.text@[x], position_style(text_style.symbol_styles@, x)),
    )
}

fn styled_text_symbols(text_style: &SmallTextStyle) -> (r: Vec<Symbol>)
    requires
        text_style.text@.len() <= u16::MAX + 1,
    ensures
        r@ == styled_symbols(*text_style),
{
    let chars = text_chars(text_style.text);
    let untouched = find_untouched_style(&text_style.symbol_styles);
    let mut r: Vec<Symbol> = Vec::new();
    let mut i: usize = 0;
    while i < chars.len()
        invariant
            chars@ == text_style.text@,
            chars@.len() <= u16::MAX + 1,
            i <= chars@.len(),
            untouched == crate::text::untouched_style(text_style.symbol_styles@),
            r@.len() == i,
            forall|k: int| 0 <= k < i ==> #[trigger] r@[k] == styled_symbols(*text_style)[k],
        decreases chars@.len() - i,
    {
        let style = find_position_style(&text_style.symbol_styles, i as u16, untouched);
        r.push(Symbol::new(chars[i], style));
        i = i + 1;
    }
    proof {
        assert(r@ =~= styled_symbols(*text_style));
    }
    r
}

/// Direction in which a ticker moves the text.
#[derive(Debug, Clone, Copy, PartialEq, Eq, Hash, Structural)]
pub enum TickerAnimationDirection {
    /// Each step moves every symbol one position right; the last wraps
    /// to the front.
    Forward,
    /// Each step moves every symbol one position left; the first wraps
    /// to the back.
    Backward,
}

impl Default for TickerAnimationDirection {
    fn default() -> (r: Self)
        ensures
            r == TickerAnimationDirection::Forward,
    {
        TickerAnimationDirection::Forward
    }
}

/// A ticker: the text scrolls around, one position per step.
#[derive(Debug, Clone, Copy, PartialEq, Eq, Structural)]
pub struct TickerAnimationStyle {
    pub direction: TickerAnimationDirection,
    /// Duration of each step, in milliseconds.
    pub duration: u64,
    pub advance_mode: AnimationAdvanceMode,
    pub repeat_mode: AnimationRepeatMode,
}

/// Index of the symbol shown at position `i` after `k` moves of a ticker
/// over `n` symbols.
pub open spec fn ticker_source(direction: TickerAnimationDirection, n: int, k: int, i: int) -> int {
    match direction {
        TickerAnimationDirection::Forward => (i + n - k) % n,
        TickerAnimationDirection::Backward => (i + k) % n,
    }
}

/// Step `k` of a ticker: every position shows the symbol that `k` moves
/// bring there.
pub open spec fn ticker_step(
    symbols: Seq<Symbol>,
    direction: TickerAnimationDirection,
    k: int,
    duration: u64,
) -> StepView {
    (
        Seq::new(
            symbols.len(),
            |i: int|
                (
                    AnimationTarget::Single(i as u16),
                    set_symbol_actions(symbols[ticker_source(direction, symbols.len() as int, k, i)]),
                ),
        ),
        duration,
    )
}

impl TickerAnimationStyle {
    /// The animation style of this ticker over a text: one step per
    /// position of the text; step `k` shows the text moved by `k`.
    pub fn into_animation_style(&self, text_style: &SmallTextStyle) -> (r: AnimationStyle)
        requires
            text_style.text@.len() <= u16::MAX + 1,
        ensures
            r.repeat_mode == self.repeat_mode,
            r.advance_mode == self.advance_mode,
            steps_view(r.steps@) == Seq::new(
                text_style.text@.len(),
                |k: int| ticker_step(styled_symbols(*text_style), self.direction, k, self.duration),
            ),
    {
        let symbols = styled_text_symbols(text_style);
        let n = symbols.len();
        let ghost syms = symbols@;
        let ghost expected = Seq::new(
            n as nat,
            |k: int| ticker_step(syms, self.direction, k, self.duration),
        );
        let mut steps: Vec<AnimationStep> = Vec::new();
        let mut k: usize = 0;
        while k < n
            invariant
                n == syms.len(),
                n <= u16::MAX + 1,
                symbols@ == syms,
                expected == Seq::new(
                    n as nat,
                    |k: int| ticker_step(syms, self.direction, k, self.duration),
                ),
                k <= n,
                steps@.len() == k,
                forall|j: int| 0 <= j < k ==> #[trigger] steps@[j]@ == expected[j],
            decreases n - k,
        {
            let mut entries: Vec<(AnimationTarget, Vec<AnimationAction>)> = Vec::new();
            let mut i: usize = 0;
            while i < n
                invariant
                    n == syms.len(),
                    n <= u16::MAX + 1,
                    symbols@ == syms,
                    k < n,
                    i <= n,
                    entries@.len() == i,
                    forall|j: int|
                        0 <= j < i ==> (#[trigger] entries@[j]).0 == ticker_step(
                            syms,
                            self.direction,
                            k as int,
                            self.duration,
                        ).0[j].0 && entries@[j].1@ == ticker_step(
                            syms,
                            self.direction,
                            k as int,
                            self.duration,
                        ).0[j].1,
                decreases n - i,
            {
                let source = match self.direction {
                    TickerAnimationDirection::Forward => (i + n - k) % n,
                    TickerAnimationDirection::Backward => (i + k) % n,
                };
                entries.push(set_symbol_entry(i as u16, symbols[source]));
                i = i + 1;
            }
            let step = AnimationStep::new(entries, self.duration);
            proof {
                assert(step@.0 =~= ticker_step(syms, self.direction, k as int, self.duration).0);
            }
            steps.push(step);
            k = k + 1;
        }
        proof {
            assert(steps_view(steps@) =~= expected);
        }
        AnimationStyle::new(self.repeat_mode, self.advance_mode, steps)
    }
}

/// `s` in the highlight colors, where they are given.
pub open spec fn highlighted(s: Symbol, fg: Option<Color>, bg: Option<Color>) -> Symbol {
    Symbol {
        foreground_color: match fg {
            Some(c) => c,
            None => s.foreground_color,
        },
        background_color: match bg {
            Some(c) => c,
            None => s.background_color,
        },
        ..s
    }
}

fn highlight(s: Symbol, fg: Option<Color>, bg: Option<Color>) -> (r: Symbol)
    ensures
        r == highlighted(s, fg, bg),
{
    let foreground_color = match fg {
        Some(c) => c,
        None => s.foreground_color,
    };
    let background_color = match bg {
        Some(c) => c,
        None => s.background_color,
    };
    Symbol { value: s.value, foreground_color, background_color, modifier: s.modifier }
}

/// `entries` with position `x` set to `s`.
pub open spec fn with_symbol(
    entries: Seq<(AnimationTarget, Seq<AnimationAction>)>,
    x: int,
    s: Symbol,
) -> Seq<(AnimationTarget, Seq<AnimationAction>)> {
    with_entry(entries, AnimationTarget::Single(x as u16), set_symbol_actions(s))
}

fn set_position(step: &mut AnimationStep, x: u16, s: Symbol)
    ensures
        final(step)@.0 == with_symbol(old(step)@.0, x as int, s),
        final(step).duration == old(step).duration,
{
    let (target, actions) = set_symbol_entry(x, s);
    step.insert_entry(target, actions);
}

/// Number of steps of a scanner over `n` symbols: there and back.
pub open spec fn scanner_len(n: int) -> int {
    if n >= 2 {
        2 * n - 2
    } else {
        n
    }
}

/// Step `k` of a scanner: the highlight moves right over the text, then
/// back left, and the position it leaves gets its own symbol again.
pub open spec fn scanner_step(
    symbols: Seq<Symbol>,
    fg: Option<Color>,
    bg: Option<Color>,
    k: int,
) -> Seq<(AnimationTarget, Seq<AnimationAction>)> {
    let n = symbols.len() as int;
    if k < n {
        let head = with_symbol(Seq::empty(), k, highlighted(symbols[k], fg, bg));
        if k == 0 {
            head
        } else {
            with_symbol(head, k - 1, symbols[k - 1])
        }
    } else {
        let x = 2 * n - 2 - k;
        with_symbol(
            with_symbol(Seq::empty(), x, highlighted(symbols[x], fg, bg)),
            x + 1,
            symbols[x + 1],
        )
    }
}

/// A scanner: a highlight sweeps over the text and back.
#[derive(Debug, Clone, PartialEq, Eq)]
pub struct ScannerAnimationStyle<'a> {
    pub text_style: &'a SmallTextStyle<'a>,
    /// Duration of each step, in milliseconds.
    pub duration: u64,
    /// Foreground of the highlight; the symbol's own when `None`.
    pub foreground_color: Option<Color>,
    /// Background of the highlight; the symbol's own when `None`.
    pub background_color: Option<Color>,
    pub advance_mode: AnimationAdvanceMode,
    pub repeat_mode: AnimationRepeatMode,
}

impl<'a> ScannerAnimationStyle<'a> {
    /// The animation style of this scanner.
    pub fn into_animation_style(&self) -> (r: AnimationStyle)
        requires
            self.text_style.text@.len() <= u16::MAX + 1,
        ensures
            r.repeat_mode == self.repeat_mode,
            r.advance_mode == self.advance_mode,
            steps_view(r.steps@) == Seq::new(
                scanner_len(self.text_style.text@.len() as int) as nat,
                |k: int|
                    (
                        scanner_step(
                            styled_symbols(*self.text_style),
                            self.foreground_color,
                            self.background_color,
                            k,
                        ),
                        self.duration,
                    ),
            ),
    {
        let symbols = styled_text_symbols(self.text_style);
        let n = symbols.len();
        let ghost syms = symbols@;
        let fg = self.foreground_color;
        let bg = self.background_color;
        let total = if n >= 2 {
            2 * n - 2
        } else {
            n
        };
        let ghost expected = Seq::new(
            total as nat,
            |k: int| (scanner_step(syms, fg, bg, k), self.duration),
        );
        let mut steps: Vec<AnimationStep> = Vec::new();
        let mut k: usize = 0;
        while k < total
            invariant
                n == syms.len(),
                n <= u16::MAX + 1,
                symbols@ == syms,
                total == scanner_len(n as int),
                fg == self.foreground_color,
                bg == self.background_color,
                expected == Seq::new(
                    total as nat,
                    |k: int| (scanner_step(syms, fg, bg, k), self.duration),
                ),
                k <= total,
                steps@.len() == k,
                forall|j: int| 0 <= j < k ==> #[trigger] steps@[j]@ == expected[j],
            decreases total - k,
        {
            let mut step = AnimationStep::new(Vec::new(), self.duration);
            if k < n {
                set_position(&mut step, k as u16, highlight(symbols[k], fg, bg));
                if k > 0 {
                    set_position(&mut step, (k - 1) as u16, symbols[k - 1]);
                }
            } else {
                let x = 2 * n - 2 - k;
                set_position(&mut step, x as u16, highlight(symbols[x], fg, bg));
                set_position(&mut step, (x + 1) as u16, symbols[x + 1]);
            }
            proof {
                assert(step@.0 =~= scanner_step(syms, fg, bg, k as int));
            }
            steps.push(step);
            k = k + 1;
        }
        proof {
            assert(steps_view(steps@) =~= expected);
        }
        AnimationStyle::new(self.repeat_mode, self.advance_mode, steps)
    }
}

/// `s` dimmed, in the highlight colors.
pub open spec fn dimmed(s: Symbol, fg: Option<Color>, bg: Option<Color>) -> Symbol {
    Symbol {
        modifier: s.modifier.spec_union(Modifier { bits: Modifier::DIM }),
        ..highlighted(s, fg, bg)
    }
}

/// Step `x` of a wave: the head is highlighted at `x`, the two
/// positions behind it get their own symbols back, then the position just
/// behind the head (from the third step on) gets a dimmed highlight.
/// Later settings of a position replace earlier ones.
pub open spec fn wave_step(symbols: Seq<Symbol>, fg: Option<Color>, bg: Option<Color>, x: int) -> Seq<
    (AnimationTarget, Seq<AnimationAction>),
> {
    let n = symbols.len() as int;
    let old_head = if x == 0 {
        if n >= 1 {
            n - 1
        } else {
            0
        }
    } else {
        x - 1
    };
    let old_tail = if x == 0 {
        if n >= 2 {
            n - 2
        } else {
            0
        }
    } else if x >= 2 {
        x - 2
    } else {
        0
    };
    let e = with_symbol(
        with_symbol(
            with_symbol(Seq::empty(), x, highlighted(symbols[x], fg, bg)),
            old_head,
            symbols[old_head],
        ),
        old_tail,
        symbols[old_tail],
    );
    if x >= 2 {
        with_symbol(e, x - 1, dimmed(symbols[x - 1], fg, bg))
    } else {
        e
    }
}

/// A wave: a highlighted head with a dimmed tail runs over the text.
#[derive(Debug, Clone, PartialEq, Eq)]
pub struct WaveAnimationStyle<'a> {
    pub text_style: &'a SmallTextStyle<'a>,
    /// Duration of each step, in milliseconds.
    pub duration: u64,
    /// Foreground of the highlight; the symbol's own when `None`.
    pub foreground_color: Option<Color>,
    /// Background of the highlight; the symbol's own when `None`.
    pub background_color: Option<Color>,
    pub advance_mode: AnimationAdvanceMode,
    pub repeat_mode: AnimationRepeatMode,
}

impl<'a> WaveAnimationStyle<'a> {
    /// The animation style of this wave: one step per position.
    pub fn into_animation_style(&self) -> (r: AnimationStyle)
        requires
            self.text_style.text@.len() <= u16::MAX + 1,
        ensures
            r.repeat_mode == self.repeat_mode,
            r.advance_mode == self.advance_mode,
            steps_view(r.steps@) == Seq::new(
                self.text_style.text@.len(),
                |x: int|
                    (
                        wave_step(
                            styled_symbols(*self.text_style),
                            self.foreground_color,
                            self.background_color,
                            x,
                        ),
                        self.duration,
                    ),
            ),
    {
        let symbols = styled_text_symbols(self.text_style);
        let n = symbols.len();
        let ghost syms = symbols@;
        let fg = self.foreground_color;
        let bg = self.background_color;
        let ghost expected = Seq::new(n as nat, |x: int| (wave_step(syms, fg, bg, x), self.duration));
        let mut steps: Vec<AnimationStep> = Vec::new();
        let mut x: usize = 0;
        while x < n
            invariant
                n == syms.len(),
                n <= u16::MAX + 1,
                symbols@ == syms,
                fg == self.foreground_color,
                bg == self.background_color,
                expected == Seq::new(n as nat, |x: int| (wave_step(syms, fg, bg, x), self.duration)),
                x <= n,
                steps@.len() == x,
                forall|j: int| 0 <= j < x ==> #[trigger] steps@[j]@ == expected[j],
            decreases n - x,
        {
            let mut step = AnimationStep::new(Vec::new(), self.duration);
            proof {
                assert(step@.0 =~= Seq::empty());
            }
            set_position(&mut step, x as u16, highlight(symbols[x], fg, bg));
            let ghost e1 = step@.0;
            let old_head = if x == 0 {
                n - 1
            } else {
                x - 1
            };
            let old_tail = if x == 0 {
                if n >= 2 {
                    n - 2
                } else {
                    0
                }
            } else if x >= 2 {
                x - 2
            } else {
                0
            };
            set_position(&mut step, old_head as u16, symbols[old_head]);
            let ghost e2 = step@.0;
            set_position(&mut step, old_tail as u16, symbols[old_tail]);
            let ghost e3 = step@.0;
            proof {
                let ex = x as int;
                let h = if ex == 0 { if n >= 1 { n - 1 } else { 0 } } else { ex - 1 };
                let t = if ex == 0 { if n >= 2 { n - 2 } else { 0 } } else if ex >= 2 { ex - 2 } else { 0 };
                assert(h == old_head as int);
                assert(t == old_tail as int);
                assert(e1 == with_symbol(Seq::empty(), ex, highlighted(syms[ex], fg, bg)));
                assert(e2 == with_symbol(e1, h, syms[h]));
                assert(e3 == with_symbol(e2, t, syms[t]));
            }
            if x >= 2 {
                let tail = highlight(symbols[x - 1], fg, bg);
                let dim = Symbol {
                    modifier: tail.modifier.union(Modifier::from_bits(Modifier::DIM)),
                    ..tail
                };
                proof {
                    assert(dim == dimmed(syms[x - 1], fg, bg));
                }
                set_position(&mut step, (x - 1) as u16, dim);
            }
            proof {
                assert(step@.0 == wave_step(syms, fg, bg, x as int));
            }
            steps.push(step);
            x = x + 1;
        }
        proof {
            assert(steps_view(steps@) =~= expected);
        }
        AnimationStyle::new(self.repeat_mode, self.advance_mode, steps)
    }
}

} // verus!
