use vstd::prelude::*;

verus! {

/// The symbol sequence that a spinner cycles through.
#[derive(Debug, Clone, Copy, PartialEq, Eq, Hash, Structural)]
pub enum SmallSpinnerType {
    /// | / - \
    Ascii,
    /// │ ╱ ─ ╲
    BoxDrawing,
    /// ↑ ↗ → ↘ ↓ ↙ ← ↖
    Arrow,
    /// ⇑ ⇗ ⇒ ⇘ ⇓ ⇙ ⇐ ⇖
    DoubleArrow,
    /// ▝ ▗ ▖ ▘
    QuadrantBlock,
    /// ▙ ▛ ▜ ▟
    QuadrantBlockCrack,
    /// ▁ ▂ ▃ ▄ ▅ ▆ ▇ █
    VerticalBlock,
    /// ▏ ▎ ▍ ▌ ▋ ▊ ▉ █
    HorizontalBlock,
    /// ◢ ◣ ◤ ◥
    TriangleCorners,
    /// ◳ ◲ ◱ ◰
    WhiteSquare,
    /// ◷ ◶ ◵ ◴
    WhiteCircle,
    /// ◑ ◒ ◐ ◓
    BlackCircle,
    /// 🕛 🕧 🕐 🕜 🕑 🕝 🕒 🕞 🕓 🕟 🕔 🕠 🕕 🕡 🕖 🕢 🕗 🕣 🕘 🕤 🕙 🕥 🕚 🕦
    Clock,
    /// 🌑 🌒 🌓 🌕 🌖
    MoonPhases,
    /// ⠈ ⠐ ⠠ ⠄ ⠂ ⠁
    BrailleOne,
    /// ⠘ ⠰ ⠤ ⠆ ⠃ ⠉
    BrailleDouble,
    /// ⠷ ⠯ ⠟ ⠻ ⠽ ⠾
    BrailleSix,
    /// ⠧ ⠏ ⠛ ⠹ ⠼ ⠶
    BrailleSixDouble,
    /// ⣷ ⣯ ⣟ ⡿ ⢿ ⣻ ⣽ ⣾
    BrailleEight,
    /// ⣧ ⣏ ⡟ ⠿ ⢻ ⣹ ⣼ ⣶
    BrailleEightDouble,
    /// U+1680 ᚐ ᚑ ᚒ ᚓ ᚔ
    OghamA,
    /// U+1680 ᚁ ᚂ ᚃ ᚄ ᚅ
    OghamB,
    /// U+1680 ᚆ ᚇ ᚈ ᚉ ᚊ
    OghamC,
    /// ⎛ ⎜ ⎝ ⎞ ⎟ ⎠
    Parenthesis,
    /// ᔐ ᯇ ᔑ ᯇ
    Canadian,
}

impl Default for SmallSpinnerType {
    fn default() -> (r: Self)
        ensures
            r == SmallSpinnerType::BrailleDouble,
    {
        SmallSpinnerType::BrailleDouble
    }
}

impl SmallSpinnerType {
    /// The type's name in snake case.
    pub fn as_str(&self) -> &'static str {
        match self {
            SmallSpinnerType::Ascii => "ascii",
            SmallSpinnerType::BoxDrawing => "box_drawing",
            SmallSpinnerType::Arrow => "arrow",
            SmallSpinnerType::DoubleArrow => "double_arrow",
            SmallSpinnerType::QuadrantBlock => "quadrant_block",
            SmallSpinnerType::QuadrantBlockCrack => "quadrant_block_crack",
            SmallSpinnerType::VerticalBlock => "vertical_block",
            SmallSpinnerType::HorizontalBlock => "horizontal_block",
            SmallSpinnerType::TriangleCorners => "triangle_corners",
            SmallSpinnerType::WhiteSquare => "white_square",
            SmallSpinnerType::WhiteCircle => "white_circle",
            SmallSpinnerType::BlackCircle => "black_circle",
            SmallSpinnerType::Clock => "clock",
            SmallSpinnerType::MoonPhases => "moon_phases",
            SmallSpinnerType::BrailleOne => "braille_one",
            SmallSpinnerType::BrailleDouble => "braille_double",
            SmallSpinnerType::BrailleSix => "braille_six",
            SmallSpinnerType::BrailleSixDouble => "braille_six_double",
            SmallSpinnerType::BrailleEight => "braille_eight",
            SmallSpinnerType::BrailleEightDouble => "braille_eight_double",
            SmallSpinnerType::OghamA => "ogham_a",
            SmallSpinnerType::OghamB => "ogham_b",
            SmallSpinnerType::OghamC => "ogham_c",
            SmallSpinnerType::Parenthesis => "parenthesis",
            SmallSpinnerType::Canadian => "canadian",
        }
    }
}

/// The symbols of a spinner type, in the order they are shown.
pub open spec fn spinner_symbols(spinner_type: SmallSpinnerType) -> Seq<&'static str> {
    match spinner_type {
        SmallSpinnerType::Ascii => seq!["|", "/", "-", "\\"],
        SmallSpinnerType::BoxDrawing => seq!["\u{2502}", "\u{2571}", "\u{2500}", "\u{2572}"],
        SmallSpinnerType::Arrow => seq!["\u{2191}", "\u{2197}", "\u{2192}", "\u{2198}", "\u{2193}", "\u{2199}", "\u{2190}", "\u{2196}"],
        SmallSpinnerType::DoubleArrow => seq!["\u{21d1}", "\u{21d7}", "\u{21d2}", "\u{21d8}", "\u{21d3}", "\u{21d9}", "\u{21d0}", "\u{21d6}"],
        SmallSpinnerType::QuadrantBlock => seq!["\u{259d}", "\u{2597}", "\u{2596}", "\u{2598}"],
        SmallSpinnerType::QuadrantBlockCrack => seq!["\u{2599}", "\u{259b}", "\u{259c}", "\u{259f}"],
        SmallSpinnerType::VerticalBlock => seq!["\u{2581}", "\u{2582}", "\u{2583}", "\u{2584}", "\u{2585}", "\u{2586}", "\u{2587}", "\u{2588}"],
        SmallSpinnerType::HorizontalBlock => seq!["\u{258f}", "\u{258e}", "\u{258d}", "\u{258c}", "\u{258b}", "\u{258a}", "\u{2589}", "\u{2588}"],
        SmallSpinnerType::TriangleCorners => seq!["\u{25e2}", "\u{25e3}", "\u{25e4}", "\u{25e5}"],
        SmallSpinnerType::WhiteSquare => seq!["\u{25f3}", "\u{25f2}", "\u{25f1}", "\u{25f0}"],
        SmallSpinnerType::WhiteCircle => seq!["\u{25f7}", "\u{25f6}", "\u{25f5}", "\u{25f4}"],
        SmallSpinnerType::BlackCircle => seq!["\u{25d1}", "\u{25d2}", "\u{25d0}", "\u{25d3}"],
        SmallSpinnerType::Clock => seq!["\u{1f55b}", "\u{1f567}", "\u{1f550}", "\u{1f55c}", "\u{1f551}", "\u{1f55d}", "\u{1f552}", "\u{1f55e}", "\u{1f553}", "\u{1f55f}", "\u{1f554}", "\u{1f560}", "\u{1f555}", "\u{1f561}", "\u{1f556}", "\u{1f562}", "\u{1f557}", "\u{1f563}", "\u{1f558}", "\u{1f564}", "\u{1f559}", "\u{1f565}", "\u{1f55a}", "\u{1f566}"],
        SmallSpinnerType::MoonPhases => seq!["\u{1f311}", "\u{1f312}", "\u{1f313}", "\u{1f315}", "\u{1f316}"],
        SmallSpinnerType::BrailleOne => seq!["\u{2808}", "\u{2810}", "\u{2820}", "\u{2804}", "\u{2802}", "\u{2801}"],
        SmallSpinnerType::BrailleDouble => seq!["\u{2818}", "\u{2830}", "\u{2824}", "\u{2806}", "\u{2803}", "\u{2809}"],
        SmallSpinnerType::BrailleSix => seq!["\u{2837}", "\u{282f}", "\u{281f}", "\u{283b}", "\u{283d}", "\u{283e}"],
        SmallSpinnerType::BrailleSixDouble => seq!["\u{2827}", "\u{280f}", "\u{281b}", "\u{2839}", "\u{283c}", "\u{2836}"],
        SmallSpinnerType::BrailleEight => seq!["\u{28f7}", "\u{28ef}", "\u{28df}", "\u{287f}", "\u{28bf}", "\u{28fb}", "\u{28fd}", "\u{28fe}"],
        SmallSpinnerType::BrailleEightDouble => seq!["\u{28e7}", "\u{28cf}", "\u{285f}", "\u{283f}", "\u{28bb}", "\u{28f9}", "\u{28fc}", "\u{28f6}"],
        SmallSpinnerType::OghamA => seq!["\u{1680}", "\u{1690}", "\u{1691}", "\u{1692}", "\u{1693}", "\u{1694}"],
        SmallSpinnerType::OghamB => seq!["\u{1680}", "\u{1681}", "\u{1682}", "\u{1683}", "\u{1684}", "\u{1685}"],
        SmallSpinnerType::OghamC => seq!["\u{1680}", "\u{1686}", "\u{1687}", "\u{1688}", "\u{1689}", "\u{168a}"],
        SmallSpinnerType::Parenthesis => seq!["\u{239b}", "\u{239c}", "\u{239d}", "\u{239e}", "\u{239f}", "\u{23a0}"],
        SmallSpinnerType::Canadian => seq!["\u{1510}", "\u{1bc7}", "\u{1511}", "\u{1bc7}"],
    }
}

/// The symbols of a spinner type, in the order they are shown.
pub fn symbol_cycle_by_spinner_type(spinner_type: SmallSpinnerType) -> (r: Vec<&'static str>)
    ensures
        r@ == spinner_symbols(spinner_type),
        r@.len() > 0,
{
    match spinner_type {
        SmallSpinnerType::Ascii => vec!["|", "/", "-", "\\"],
        SmallSpinnerType::BoxDrawing => vec!["\u{2502}", "\u{2571}", "\u{2500}", "\u{2572}"],
        SmallSpinnerType::Arrow => vec!["\u{2191}", "\u{2197}", "\u{2192}", "\u{2198}", "\u{2193}", "\u{2199}", "\u{2190}", "\u{2196}"],
        SmallSpinnerType::DoubleArrow => vec!["\u{21d1}", "\u{21d7}", "\u{21d2}", "\u{21d8}", "\u{21d3}", "\u{21d9}", "\u{21d0}", "\u{21d6}"],
        SmallSpinnerType::QuadrantBlock => vec!["\u{259d}", "\u{2597}", "\u{2596}", "\u{2598}"],
        SmallSpinnerType::QuadrantBlockCrack => vec!["\u{2599}", "\u{259b}", "\u{259c}", "\u{259f}"],
        SmallSpinnerType::VerticalBlock => vec!["\u{2581}", "\u{2582}", "\u{2583}", "\u{2584}", "\u{2585}", "\u{2586}", "\u{2587}", "\u{2588}"],
        SmallSpinnerType::HorizontalBlock => vec!["\u{258f}", "\u{258e}", "\u{258d}", "\u{258c}", "\u{258b}", "\u{258a}", "\u{2589}", "\u{2588}"],
        SmallSpinnerType::TriangleCorners => vec!["\u{25e2}", "\u{25e3}", "\u{25e4}", "\u{25e5}"],
        SmallSpinnerType::WhiteSquare => vec!["\u{25f3}", "\u{25f2}", "\u{25f1}", "\u{25f0}"],
        SmallSpinnerType::WhiteCircle => vec!["\u{25f7}", "\u{25f6}", "\u{25f5}", "\u{25f4}"],
        SmallSpinnerType::BlackCircle => vec!["\u{25d1}", "\u{25d2}", "\u{25d0}", "\u{25d3}"],
        SmallSpinnerType::Clock => vec!["\u{1f55b}", "\u{1f567}", "\u{1f550}", "\u{1f55c}", "\u{1f551}", "\u{1f55d}", "\u{1f552}", "\u{1f55e}", "\u{1f553}", "\u{1f55f}", "\u{1f554}", "\u{1f560}", "\u{1f555}", "\u{1f561}", "\u{1f556}", "\u{1f562}", "\u{1f557}", "\u{1f563}", "\u{1f558}", "\u{1f564}", "\u{1f559}", "\u{1f565}", "\u{1f55a}", "\u{1f566}"],
        SmallSpinnerType::MoonPhases => vec!["\u{1f311}", "\u{1f312}", "\u{1f313}", "\u{1f315}", "\u{1f316}"],
        SmallSpinnerType::BrailleOne => vec!["\u{2808}", "\u{2810}", "\u{2820}", "\u{2804}", "\u{2802}", "\u{2801}"],
        SmallSpinnerType::BrailleDouble => vec!["\u{2818}", "\u{2830}", "\u{2824}", "\u{2806}", "\u{2803}", "\u{2809}"],
        SmallSpinnerType::BrailleSix => vec!["\u{2837}", "\u{282f}", "\u{281f}", "\u{283b}", "\u{283d}", "\u{283e}"],
        SmallSpinnerType::BrailleSixDouble => vec!["\u{2827}", "\u{280f}", "\u{281b}", "\u{2839}", "\u{283c}", "\u{2836}"],
        SmallSpinnerType::BrailleEight => vec!["\u{28f7}", "\u{28ef}", "\u{28df}", "\u{287f}", "\u{28bf}", "\u{28fb}", "\u{28fd}", "\u{28fe}"],
        SmallSpinnerType::BrailleEightDouble => vec!["\u{28e7}", "\u{28cf}", "\u{285f}", "\u{283f}", "\u{28bb}", "\u{28f9}", "\u{28fc}", "\u{28f6}"],
        SmallSpinnerType::OghamA => vec!["\u{1680}", "\u{1690}", "\u{1691}", "\u{1692}", "\u{1693}", "\u{1694}"],
        SmallSpinnerType::OghamB => vec!["\u{1680}", "\u{1681}", "\u{1682}", "\u{1683}", "\u{1684}", "\u{1685}"],
        SmallSpinnerType::OghamC => vec!["\u{1680}", "\u{1686}", "\u{1687}", "\u{1688}", "\u{1689}", "\u{168a}"],
        SmallSpinnerType::Parenthesis => vec!["\u{239b}", "\u{239c}", "\u{239d}", "\u{239e}", "\u{239f}", "\u{23a0}"],
        SmallSpinnerType::Canadian => vec!["\u{1510}", "\u{1bc7}", "\u{1511}", "\u{1bc7}"],
    }
}

/// Cycles through the symbols of a spinner type.
#[derive(Debug, Clone, PartialEq, Eq)]
pub struct SymbolCycle {
    pub symbols: Vec<&'static str>,
    pub current_index: usize,
}

impl Default for SymbolCycle {
    fn default() -> (r: Self)
        ensures
            r.wf(),
            r.symbols@ == spinner_symbols(SmallSpinnerType::BrailleDouble),
            r.current_index == 0,
    {
        SymbolCycle::new(SmallSpinnerType::BrailleDouble)
    }
}

impl SymbolCycle {
    pub open spec fn wf(&self) -> bool {
        self.current_index < self.symbols@.len()
    }

    /// A cycle over the symbols of `spinner_type`, at its first symbol.
    pub fn new(spinner_type: SmallSpinnerType) -> (r: Self)
        ensures
            r.wf(),
            r.symbols@ == spinner_symbols(spinner_type),
            r.current_index == 0,
    {
        SymbolCycle { symbols: symbol_cycle_by_spinner_type(spinner_type), current_index: 0 }
    }

    /// The current symbol.
    pub fn current_symbol(&self) -> (r: &'static str)
        requires
            self.wf(),
        ensures
            r == self.symbols@[self.current_index as int],
    {
        self.symbols[self.current_index]
    }

    /// Moves to the next symbol, from the last back to the first, and
    /// returns it.
    pub fn next_symbol(&mut self) -> (r: &'static str)
        requires
            old(self).wf(),
        ensures
            final(self).wf(),
            final(self).symbols == old(self).symbols,
            final(self).current_index == if old(self).current_index + 1 < old(self).symbols@.len() {
                old(self).current_index + 1
            } else {
                0
            },
            r == final(self).symbols@[final(self).current_index as int],
    {
        if self.current_index < self.symbols.len() - 1 {
            self.current_index = self.current_index + 1;
        } else {
            self.current_index = 0;
        }
        self.symbols[self.current_index]
    }

    /// Goes back to the first symbol.
    pub fn reset(&mut self)
        requires
            old(self).wf(),
        ensures
            final(self).wf(),
            final(self).symbols == old(self).symbols,
            final(self).current_index == 0,
    {
        self.current_index = 0;
    }
}

} // verus!
