use vstd::prelude::*;

verus! {

/// A terminal color, as a plain value.
#[derive(Debug, Clone, Copy, PartialEq, Eq, Hash, Structural)]
pub enum Color {
    Reset,
    Black,
    Red,
    Green,
    Yellow,
    Blue,
    Magenta,
    Cyan,
    Gray,
    DarkGray,
    LightRed,
    LightGreen,
    LightYellow,
    LightBlue,
    LightMagenta,
    LightCyan,
    White,
    Rgb(u8, u8, u8),
    Indexed(u8),
}

impl Default for Color {
    fn default() -> (r: Self)
        ensures
            r == Color::Reset,
    {
        Color::Reset
    }
}

/// A set of text emphasis flags, held as a bit set.
#[derive(Debug, Clone, Copy, PartialEq, Eq, Hash, Structural)]
pub struct Modifier {
    pub bits: u16,
}

impl Default for Modifier {
    fn default() -> (r: Self)
        ensures
            r.bits == 0,
    {
        Modifier { bits: 0 }
    }
}

impl Modifier {
    pub const BOLD: u16 = 0x0001;
    pub const DIM: u16 = 0x0002;
    pub const ITALIC: u16 = 0x0004;
    pub const UNDERLINED: u16 = 0x0008;
    pub const SLOW_BLINK: u16 = 0x0010;
    pub const RAPID_BLINK: u16 = 0x0020;
    pub const REVERSED: u16 = 0x0040;
    pub const HIDDEN: u16 = 0x0080;
    pub const CROSSED_OUT: u16 = 0x0100;

    /// The modifier with no flag set.
    pub fn empty() -> (r: Self)
        ensures
            r.bits == 0,
    {
        Modifier { bits: 0 }
    }

    /// The modifier holding exactly the given flags.
    pub fn from_bits(bits: u16) -> (r: Self)
        ensures
            r.bits == bits,
    {
        Modifier { bits }
    }

    /// Every flag set in `self` or in `other`.
    pub fn union(self, other: Modifier) -> (r: Self)
        ensures
            r == self.spec_union(other),
    {
        Modifier { bits: self.bits | other.bits }
    }

    pub open spec fn spec_union(self, other: Modifier) -> Modifier {
        Modifier { bits: self.bits | other.bits }
    }

    /// Clears in `self` every flag that is set in `other`.
    pub fn remove(&mut self, other: Modifier)
        ensures
            *final(self) == old(self).spec_remove(other),
    {
        self.bits = self.bits & !other.bits;
    }

    pub open spec fn spec_remove(self, other: Modifier) -> Modifier {
        Modifier { bits: self.bits & !other.bits }
    }
}

/// Foreground color, background color and emphasis of one character.
#[derive(Debug, Clone, Copy, PartialEq, Eq, Hash, Structural)]
pub struct SymbolStyle {
    pub foreground_color: Color,
    pub background_color: Color,
    pub modifier: Modifier,
}

impl Default for SymbolStyle {
    fn default() -> (r: Self)
        ensures
            r.foreground_color == Color::Reset,
            r.background_color == Color::Reset,
            r.modifier.bits == 0,
    {
        SymbolStyle { foreground_color: Color::Reset, background_color: Color::Reset, modifier: Modifier { bits: 0 } }
    }
}

impl SymbolStyle {
    pub fn new(foreground_color: Color, background_color: Color, modifier: Modifier) -> (r: Self)
        ensures
            r == (SymbolStyle { foreground_color, background_color, modifier }),
    {
        SymbolStyle { foreground_color, background_color, modifier }
    }
}

/// One renderable character position: its character and its style.
#[derive(Debug, Clone, Copy, PartialEq, Eq, Hash, Structural)]
pub struct Symbol {
    pub value: char,
    pub foreground_color: Color,
    pub background_color: Color,
    pub modifier: Modifier,
}

impl Default for Symbol {
    fn default() -> (r: Self)
        ensures
            r.value == '\0',
            r.foreground_color == Color::Reset,
            r.background_color == Color::Reset,
            r.modifier.bits == 0,
    {
        Symbol {
            value: '\0',
            foreground_color: Color::Reset,
            background_color: Color::Reset,
            modifier: Modifier { bits: 0 },
        }
    }
}

impl Symbol {
    /// The symbol showing `value` in `style`.
    pub fn new(value: char, style: SymbolStyle) -> (r: Self)
        ensures
            r == Symbol::spec_new(value, style),
    {
        Symbol {
            value,
            foreground_color: style.foreground_color,
            background_color: style.background_color,
            modifier: style.modifier,
        }
    }

    pub open spec fn spec_new(value: char, style: SymbolStyle) -> Symbol {
        Symbol {
            value,
            foreground_color: style.foreground_color,
            background_color: style.background_color,
            modifier: style.modifier,
        }
    }
}

} // verus!
