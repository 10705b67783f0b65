use vstd::prelude::*;

use crate::style::Color;
use crate::symbol_cycle::{spinner_symbols, SmallSpinnerType, SymbolCycle};

verus! {

/// Horizontal placement of a one-character widget in its area.
#[derive(Debug, Clone, Copy, PartialEq, Eq, Hash, Structural)]
pub enum Alignment {
    Left,
    Center,
    Right,
}

impl Default for Alignment {
    fn default() -> (r: Self)
        ensures
            r == Alignment::Left,
    {
        Alignment::Left
    }
}

/// Styling of a spinner: its symbols, how long each one shows (in
/// milliseconds), where it stands and its colors.
#[derive(Debug, Clone, Copy, PartialEq, Eq, Structural)]
pub struct SmallSpinnerStyle {
    pub type_: SmallSpinnerType,
    pub interval: u64,
    pub alignment: Alignment,
    pub foreground_color: Color,
    pub background_color: Color,
}

impl Default for SmallSpinnerStyle {
    fn default() -> (r: Self)
        ensures
            r.type_ == SmallSpinnerType::BrailleDouble,
            r.interval == 0,
            r.alignment == Alignment::Left,
            r.foreground_color == Color::Reset,
            r.background_color == Color::Reset,
    {
        SmallSpinnerStyle {
            type_: SmallSpinnerType::BrailleDouble,
            interval: 0,
            alignment: Alignment::Left,
            foreground_color: Color::Reset,
            background_color: Color::Reset,
        }
    }
}

impl SmallSpinnerStyle {
    pub fn new(
        type_: SmallSpinnerType,
        interval: u64,
        alignment: Alignment,
        foreground_color: Color,
        background_color: Color,
    ) -> (r: Self)
        ensures
            r == (SmallSpinnerStyle {
                type_,
                interval,
                alignment,
                foreground_color,
                background_color,
            }),
    {
        SmallSpinnerStyle { type_, interval, alignment, foreground_color, background_color }
    }
}

/// A one-character spinner that shows the next symbol of its cycle once
/// the interval has elapsed since the last change.
#[derive(Debug, Clone, PartialEq, Eq)]
pub struct SmallSpinnerWidget {
    pub symbol_cycle: SymbolCycle,
    pub style: SmallSpinnerStyle,
    /// Time (milliseconds) at which the shown symbol last changed, or at
    /// which the first symbol was shown.
    pub last_rendered_at: Option<u64>,
}

impl SmallSpinnerWidget {
    pub open spec fn wf(&self) -> bool {
        self.symbol_cycle.wf()
    }

    pub fn new(style: SmallSpinnerStyle) -> (r: Self)
        ensures
            r.wf(),
            r.symbol_cycle.symbols@ == spinner_symbols(style.type_),
            r.symbol_cycle.current_index == 0,
            r.style == style,
            r.last_rendered_at is None,
    {
        SmallSpinnerWidget {
            symbol_cycle: SymbolCycle::new(style.type_),
            style,
            last_rendered_at: None,
        }
    }

    /// Restarts the cycle at its first symbol.
    pub fn reset(&mut self)
        requires
            old(self).wf(),
        ensures
            final(self).wf(),
            final(self).symbol_cycle.symbols == old(self).symbol_cycle.symbols,
            final(self).symbol_cycle.current_index == 0,
            final(self).style == old(self).style,
            final(self).last_rendered_at == old(self).last_rendered_at,
    {
        self.symbol_cycle.reset();
    }

    /// Whether a render at time `now` moves on to the next symbol: the
    /// interval has elapsed since the last change (an interval that runs
    /// past the clock's range never elapses).
    pub open spec fn moves_on(&self, now: u64) -> bool {
        match self.last_rendered_at {
            Some(t) => t + self.style.interval <= u64::MAX && now >= t + self.style.interval,
            None => false,
        }
    }

    /// The symbol to show when rendering at time `now` (milliseconds on a
    /// monotonic clock). The first render shows the current symbol and
    /// starts the timing; later ones show the next symbol once the
    /// interval has elapsed since the last change, else the current one.
    pub fn symbol_at(&mut self, now: u64) -> (r: &'static str)
        requires
            old(self).wf(),
        ensures
            final(self).wf(),
            final(self).style == old(self).style,
            final(self).symbol_cycle.symbols == old(self).symbol_cycle.symbols,
            final(self).symbol_cycle.current_index == if old(self).moves_on(now) {
                if old(self).symbol_cycle.current_index + 1 < old(self).symbol_cycle.symbols@.len() {
                    old(self).symbol_cycle.current_index + 1
                } else {
                    0
                }
            } else {
                old(self).symbol_cycle.current_index as int
            },
            final(self).last_rendered_at == if old(self).moves_on(now) || old(
                self,
            ).last_rendered_at is None {
                Some(now)
            } else {
                old(self).last_rendered_at
            },
            r == final(self).symbol_cycle.symbols@[final(self).symbol_cycle.current_index as int],
    {
        match self.last_rendered_at {
            None => {
                self.last_rendered_at = Some(now);
                self.symbol_cycle.current_symbol()
            },
            Some(t) => match t.checked_add(self.style.interval) {
                Some(due) => {
                    if now >= due {
                        self.last_rendered_at = Some(now);
                        self.symbol_cycle.next_symbol()
                    } else {
                        self.symbol_cycle.current_symbol()
                    }
                },
                None => self.symbol_cycle.current_symbol(),
            },
        }
    }
}

/// The column at which a spinner aligned by `alignment` stands in an area
/// starting at column `x` that is `width` columns wide.
pub fn spinner_column(alignment: Alignment, x: u16, width: u16) -> (r: u16)
    requires
        width >= 1,
        x + width <= u16::MAX,
    ensures
        r == if width == 1 {
            x as int
        } else {
            match alignment {
                Alignment::Left => x as int,
                Alignment::Center => x + width / 2,
                Alignment::Right => x + width - 1,
            }
        },
        x <= r < x + width,
{
    if width == 1 {
        x
    } else {
        match alignment {
            Alignment::Left => x,
            Alignment::Center => x + width / 2,
            Alignment::Right => x + width - 1,
        }
    }
}

/// The column of the spinner in front of a centered line `line_width`
/// columns wide (the spinner's own placeholder included) in an area from
/// column `x` that is `width` columns wide: where the centered line starts,
/// or the area's first column when the line does not fit.
pub fn loading_spinner_column(x: u16, width: u16, line_width: usize) -> (r: u16)
    ensures
        r == if line_width <= width {
            let start = x + (width - line_width) / 2;
            if start > u16::MAX {
                u16::MAX as int
            } else {
                start
            }
        } else {
            x as int
        },
{
    if line_width <= width as usize {
        let offset = (width - line_width as u16) / 2;
        x.saturating_add(offset)
    } else {
        x
    }
}

} // verus!
