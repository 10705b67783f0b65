use std::collections::HashMap;

use vstd::prelude::*;
use vstd::std_specs::iter::IteratorSpec;

use crate::style::{Symbol, SymbolStyle, Color, Modifier};

verus! {

broadcast use vstd::std_specs::hash::group_hash_axioms;

/// The characters of `text`, in order.
pub fn text_chars(text: &str) -> (r: Vec<char>)
    ensures
        r@ == text@,
{
    let mut r: Vec<char> = Vec::new();
    for c in it: text.chars()
        invariant
            it.seq() == text@,
            r@ == it.seq().subrange(0, it.index() as int),
    {
        r.push(c);
    }
    r
}

/// A selection of text positions for static styling.
///
/// The most specific target wins: `Single`, `Range`, `Every`,
/// `EveryFrom`, `ExceptEvery`, `ExceptEveryFrom`, in that order, and
/// within one kind the earlier entry; `Untouched` styles every position
/// that no other target selects.
#[derive(Debug, Clone, Copy, PartialEq, Eq, Hash, Structural)]
pub enum Target {
    /// One position.
    Single(u16),
    /// The positions from the first to the second value, both included.
    Range(u16, u16),
    /// Every n-th position starting from 0; nothing when n is zero.
    Every(u16),
    /// Every n-th position starting from the given one.
    EveryFrom(u16, u16),
    /// The positions that `Every` with the same interval leaves out.
    ExceptEvery(u16),
    /// The positions from the given one on that `EveryFrom` with the
    /// same values leaves out.
    ExceptEveryFrom(u16, u16),
    /// Positions that no other target selects.
    Untouched,
}

impl Default for Target {
    fn default() -> (r: Self)
        ensures
            r == Target::Untouched,
    {
        Target::Untouched
    }
}

/// Rank of a target: lower is more specific.
pub open spec fn text_priority(t: Target) -> nat {
    match t {
        Target::Single(_) => 0,
        Target::Range(_, _) => 1,
        Target::Every(_) => 2,
        Target::EveryFrom(_, _) => 3,
        Target::ExceptEvery(_) => 4,
        Target::ExceptEveryFrom(_, _) => 5,
        Target::Untouched => 6,
    }
}

/// Rank of a target: lower is more specific.
pub fn target_priority(t: &Target) -> (r: u8)
    ensures
        r as nat == text_priority(*t),
{
    match t {
        Target::Single(_) => 0,
        Target::Range(_, _) => 1,
        Target::Every(_) => 2,
        Target::EveryFrom(_, _) => 3,
        Target::ExceptEvery(_) => 4,
        Target::ExceptEveryFrom(_, _) => 5,
        Target::Untouched => 6,
    }
}

/// Whether `t` selects position `x`; `Untouched` selects by elimination
/// only, so never here.
pub open spec fn text_selects(t: Target, x: int) -> bool {
    match t {
        Target::Single(p) => x == p,
        Target::Range(start, end) => start <= x && x <= end,
        Target::Every(n) => n > 0 && x % (n as int) == 0,
        Target::EveryFrom(n, offset) => n > 0 && x >= offset && (x - offset) % (n as int) == 0,
        Target::ExceptEvery(n) => !(n > 0 && x % (n as int) == 0),
        Target::ExceptEveryFrom(n, offset) => x >= offset && !(n > 0 && (x - offset) % (n as int)
            == 0),
        Target::Untouched => false,
    }
}

/// Whether `t` selects position `x`.
pub fn target_selects_position(t: &Target, x: u16) -> (r: bool)
    ensures
        r == text_selects(*t, x as int),
{
    match t {
        Target::Single(p) => x == *p,
        Target::Range(start, end) => *start <= x && x <= *end,
        Target::Every(n) => *n > 0 && x % *n == 0,
        Target::EveryFrom(n, offset) => *n > 0 && x >= *offset && (x - *offset) % *n == 0,
        Target::ExceptEvery(n) => !(*n > 0 && x % *n == 0),
        Target::ExceptEveryFrom(n, offset) => x >= *offset && !(*n > 0 && (x - *offset) % *n == 0),
        Target::Untouched => false,
    }
}

/// The style of the first entry from index `j` on whose target has rank
/// `rank` and selects `x`.
pub open spec fn first_in_rank(styles: Seq<(Target, SymbolStyle)>, x: int, rank: nat, j: int) -> Option<
    SymbolStyle,
>
    decreases styles.len() - j,
{
    if j < 0 || j >= styles.len() {
        None
    } else if text_priority(styles[j].0) == rank && text_selects(styles[j].0, x) {
        Some(styles[j].1)
    } else {
        first_in_rank(styles, x, rank, j + 1)
    }
}

/// The style of the most specific target from rank `rank` on that
/// selects `x`.
pub open spec fn style_from_rank(styles: Seq<(Target, SymbolStyle)>, x: int, rank: nat) -> Option<
    SymbolStyle,
>
    decreases 6 - rank,
{
    if rank >= 6 {
        None
    } else {
        match first_in_rank(styles, x, rank, 0) {
            Some(s) => Some(s),
            None => style_from_rank(styles, x, rank + 1),
        }
    }
}

/// The style for positions that no other target selects: that of the
/// first `Untouched` entry, or the default style.
pub open spec fn untouched_style(styles: Seq<(Target, SymbolStyle)>) -> SymbolStyle {
    match first_in_rank_untouched(styles, 0) {
        Some(s) => s,
        None => SymbolStyle {
            foreground_color: Color::Reset,
            background_color: Color::Reset,
            modifier: Modifier { bits: 0 },
        },
    }
}

pub open spec fn first_in_rank_untouched(styles: Seq<(Target, SymbolStyle)>, j: int) -> Option<SymbolStyle>
    decreases styles.len() - j,
{
    if j < 0 || j >= styles.len() {
        None
    } else if styles[j].0 == Target::Untouched {
        Some(styles[j].1)
    } else {
        first_in_rank_untouched(styles, j + 1)
    }
}

/// The style of position `x`.
pub open spec fn position_style(styles: Seq<(Target, SymbolStyle)>, x: int) -> SymbolStyle {
    match style_from_rank(styles, x, 0) {
        Some(s) => s,
        None => untouched_style(styles),
    }
}

/// The symbols of a styled text: position `x` holds the `x`-th character
/// in the style of the most specific target that selects it.
pub open spec fn text_symbols(chars: Seq<char>, styles: Seq<(Target, SymbolStyle)>) -> Map<u16, Symbol> {
    Map::new(
        |x: u16| x < chars.len(),
        |x: u16| Symbol::spec_new(chars[x as int], position_style(styles, x as int)),
    )
}

pub(crate) fn find_untouched_style(styles: &Vec<(Target, SymbolStyle)>) -> (r: SymbolStyle)
    ensures
        r == untouched_style(styles@),
{
    let mut j: usize = 0;
    while j < styles.len()
        invariant
            j <= styles@.len(),
            first_in_rank_untouched(styles@, 0) == first_in_rank_untouched(styles@, j as int),
        decreases styles@.len() - j,
    {
        if styles[j].0 == Target::Untouched {
            return styles[j].1;
        }
        j = j + 1;
    }
    SymbolStyle::default()
}

pub(crate) fn find_position_style(styles: &Vec<(Target, SymbolStyle)>, x: u16, untouched: SymbolStyle) -> (r:
    SymbolStyle)
    requires
        untouched == untouched_style(styles@),
    ensures
        r == position_style(styles@, x as int),
{
    let mut rank: u8 = 0;
    while rank < 6
        invariant
            rank <= 6,
            untouched == untouched_style(styles@),
            style_from_rank(styles@, x as int, 0) == style_from_rank(styles@, x as int, rank as nat),
        decreases 6 - rank,
    {
        let mut j: usize = 0;
        while j < styles.len()
            invariant
                j <= styles@.len(),
                rank < 6,
                untouched == untouched_style(styles@),
                style_from_rank(styles@, x as int, 0) == style_from_rank(styles@, x as int, rank as nat),
                first_in_rank(styles@, x as int, rank as nat, 0) == first_in_rank(
                    styles@,
                    x as int,
                    rank as nat,
                    j as int,
                ),
            decreases styles@.len() - j,
        {
            let (t, style) = styles[j];
            if target_priority(&t) == rank && target_selects_position(&t, x) {
                return style;
            }
            j = j + 1;
        }
        rank = rank + 1;
    }
    untouched
}

/// The symbols of `text` styled by `symbol_styles`.
pub fn create_symbols(text: &str, symbol_styles: &Vec<(Target, SymbolStyle)>) -> (r: HashMap<
    u16,
    Symbol,
>)
    requires
        text@.len() <= u16::MAX + 1,
    ensures
        r@ == text_symbols(text@, symbol_styles@),
{
    let chars = text_chars(text);
    let untouched = find_untouched_style(symbol_styles);
    let mut r: HashMap<u16, Symbol> = HashMap::new();
    let mut i: usize = 0;
    while i < chars.len()
        invariant
            chars@ == text@,
            chars@.len() <= u16::MAX + 1,
            i <= chars@.len(),
            untouched == untouched_style(symbol_styles@),
            forall|x: u16| #[trigger] r@.contains_key(x) <==> x < i,
            forall|x: u16|
                #[trigger] r@.contains_key(x) ==> r@[x] == Symbol::spec_new(
                    chars@[x as int],
                    position_style(symbol_styles@, x as int),
                ),
        decreases chars@.len() - i,
    {
        let x = i as u16;
        let style = find_position_style(symbol_styles, x, untouched);
        r.insert(x, Symbol::new(chars[i], style));
        i = i + 1;
    }
    proof {
        assert(r@ =~= text_symbols(text@, symbol_styles@));
    }
    r
}

/// `t` is first at index `j` of `entries`.
pub open spec fn first_with_text_target(entries: Seq<(Target, SymbolStyle)>, t: Target, j: int) -> bool {
    &&& 0 <= j < entries.len()
    &&& entries[j].0 == t
    &&& forall|k: int| 0 <= k < j ==> entries[k].0 != t
}

/// Sets the style of `t`: the first entry for `t` is replaced in place,
/// otherwise an entry is added at the end.
pub open spec fn with_text_style(entries: Seq<(Target, SymbolStyle)>, t: Target, style: SymbolStyle) -> Seq<
    (Target, SymbolStyle),
> {
    if exists|j: int| first_with_text_target(entries, t, j) {
        let j = choose|j: int| first_with_text_target(entries, t, j);
        entries.update(j, (t, style))
    } else {
        entries.push((t, style))
    }
}

fn set_text_style(entries: &mut Vec<(Target, SymbolStyle)>, t: Target, style: SymbolStyle)
    ensures
        final(entries)@ == with_text_style(old(entries)@, t, style),
{
    let ghost old_view = entries@;
    let mut i: usize = 0;
    while i < entries.len()
        invariant
            i <= entries@.len(),
            entries@ == old_view,
            old_view == old(entries)@,
            forall|k: int| 0 <= k < i ==> (#[trigger] old_view[k]).0 != t,
        decreases entries@.len() - i,
    {
        if entries[i].0 == t {
            let ghost j = i as int;
            entries.set(i, (t, style));
            proof {
                assert(first_with_text_target(old_view, t, j));
                let ej = choose|j: int| first_with_text_target(old_view, t, j);
                assert(ej == j) by {
                    if ej > j {
                        assert(old_view[j].0 != t);
                    }
                }
            }
            return ;
        }
        i = i + 1;
    }
    entries.push((t, style));
    proof {
        assert(!exists|j: int| first_with_text_target(old_view, t, j));
    }
}

/// A text and the styles of its targets.
#[derive(Debug, Clone, PartialEq, Eq)]
pub struct SmallTextStyle<'a> {
    pub text: &'a str,
    pub symbol_styles: Vec<(Target, SymbolStyle)>,
}

impl<'a> SmallTextStyle<'a> {
    pub fn new(text: &'a str, symbol_styles: Vec<(Target, SymbolStyle)>) -> (r: Self)
        ensures
            r.text == text,
            r.symbol_styles@ == symbol_styles@,
    {
        SmallTextStyle { text, symbol_styles }
    }
}

/// Builds a [`SmallTextStyle`] target by target.
#[derive(Debug, Clone, PartialEq, Eq)]
pub struct SmallTextStyleBuilder<'a> {
    pub text: Option<&'a str>,
    pub symbol_styles: Vec<(Target, SymbolStyle)>,
}

impl<'a> Default for SmallTextStyleBuilder<'a> {
    fn default() -> (r: Self)
        ensures
            r.text is None,
            r.symbol_styles@.len() == 0,
    {
        SmallTextStyleBuilder { text: None, symbol_styles: Vec::new() }
    }
}

impl<'a> SmallTextStyleBuilder<'a> {
    pub fn with_text(self, text: &'a str) -> (r: Self)
        ensures
            r.text == Some(text),
            r.symbol_styles@ == self.symbol_styles@,
    {
        SmallTextStyleBuilder { text: Some(text), symbol_styles: self.symbol_styles }
    }

    /// Starts the style of `target`; colors and emphasis that are not set
    /// are the defaults.
    pub fn for_target(self, target: Target) -> (r: SymbolStyleAssembler<'a>)
        ensures
            r.target == target,
            r.text_style_builder.text == self.text,
            r.text_style_builder.symbol_styles@ == self.symbol_styles@,
            r.background_color is None,
            r.foreground_color is None,
            r.modifier is None,
    {
        SymbolStyleAssembler {
            target,
            text_style_builder: self,
            background_color: None,
            foreground_color: None,
            modifier: None,
        }
    }

    /// The style: the text (empty if none was set) and the target styles.
    pub fn build(self) -> (r: SmallTextStyle<'a>)
        ensures
            r.text@ == match self.text {
                Some(t) => t@,
                None => Seq::<char>::empty(),
            },
            r.symbol_styles@ == self.symbol_styles@,
    {
        let text = match self.text {
            Some(t) => t,
            None => "",
        };
        proof {
            reveal_strlit("");
        }
        SmallTextStyle { text, symbol_styles: self.symbol_styles }
    }
}

/// Collects the style of one target, then folds it into the builder.
#[derive(Debug, Clone, PartialEq, Eq)]
pub struct SymbolStyleAssembler<'a> {
    pub target: Target,
    pub text_style_builder: SmallTextStyleBuilder<'a>,
    pub background_color: Option<Color>,
    pub foreground_color: Option<Color>,
    pub modifier: Option<Modifier>,
}

impl<'a> SymbolStyleAssembler<'a> {
    pub fn set_background_color(self, color: Color) -> (r: Self)
        ensures
            r == (SymbolStyleAssembler { background_color: Some(color), ..self }),
    {
        SymbolStyleAssembler { background_color: Some(color), ..self }
    }

    pub fn set_foreground_color(self, color: Color) -> (r: Self)
        ensures
            r == (SymbolStyleAssembler { foreground_color: Some(color), ..self }),
    {
        SymbolStyleAssembler { foreground_color: Some(color), ..self }
    }

    pub fn set_modifier(self, modifier: Modifier) -> (r: Self)
        ensures
            r == (SymbolStyleAssembler { modifier: Some(modifier), ..self }),
    {
        SymbolStyleAssembler { modifier: Some(modifier), ..self }
    }

    /// Sets colors and emphasis at once.
    pub fn set_style(self, style: SymbolStyle) -> (r: Self)
        ensures
            r == (SymbolStyleAssembler {
                background_color: Some(style.background_color),
                foreground_color: Some(style.foreground_color),
                modifier: Some(style.modifier),
                ..self
            }),
    {
        SymbolStyleAssembler {
            background_color: Some(style.background_color),
            foreground_color: Some(style.foreground_color),
            modifier: Some(style.modifier),
            ..self
        }
    }

    pub open spec fn spec_style(self) -> SymbolStyle {
        SymbolStyle {
            foreground_color: match self.foreground_color {
                Some(c) => c,
                None => Color::Reset,
            },
            background_color: match self.background_color {
                Some(c) => c,
                None => Color::Reset,
            },
            modifier: match self.modifier {
                Some(m) => m,
                None => Modifier { bits: 0 },
            },
        }
    }

    /// Folds the style into the builder: it replaces an earlier style of
    /// the same target, or is added at the end.
    pub fn then(self) -> (r: SmallTextStyleBuilder<'a>)
        ensures
            r.text == self.text_style_builder.text,
            r.symbol_styles@ == with_text_style(
                self.text_style_builder.symbol_styles@,
                self.target,
                self.spec_style(),
            ),
    {
        let foreground_color = match self.foreground_color {
            Some(c) => c,
            None => Color::Reset,
        };
        let background_color = match self.background_color {
            Some(c) => c,
            None => Color::Reset,
        };
        let modifier = match self.modifier {
            Some(m) => m,
            None => Modifier::empty(),
        };
        let style = SymbolStyle::new(foreground_color, background_color, modifier);
        let mut builder = self.text_style_builder;
        set_text_style(&mut builder.symbol_styles, self.target, style);
        builder
    }
}

/// A mouse button.
#[derive(Debug, Clone, Copy, PartialEq, Eq, Hash, Structural)]
pub enum MouseButton {
    Left,
    Right,
    Middle,
}

/// What a text widget reports after a mouse event.
#[derive(Debug, Clone, Copy, PartialEq, Eq, Structural)]
pub enum InteractionEvent {
    Hovered(Symbol),
    HoveredSymbolChanged(Symbol),
    Unhovered,
    Pressed(Symbol),
    Released(Symbol),
}

/// A one-line styled text, with the mouse state it tracks.
#[derive(Debug, Clone, PartialEq, Eq)]
pub struct SmallTextWidget {
    /// The symbol at each position, positions `0..char_count`.
    pub symbols: HashMap<u16, Symbol>,
    pub char_count: usize,
    pub left_pressed: bool,
    pub right_pressed: bool,
    pub middle_pressed: bool,
    pub is_hovered: bool,
}

impl SmallTextWidget {
    pub open spec fn spec_is_pressed(&self, b: MouseButton) -> bool {
        match b {
            MouseButton::Left => self.left_pressed,
            MouseButton::Right => self.right_pressed,
            MouseButton::Middle => self.middle_pressed,
        }
    }

    /// The widget with the pressed state of `b` set to `pressed`.
    pub open spec fn with_pressed(self, b: MouseButton, pressed: bool) -> Self {
        match b {
            MouseButton::Left => SmallTextWidget { left_pressed: pressed, ..self },
            MouseButton::Right => SmallTextWidget { right_pressed: pressed, ..self },
            MouseButton::Middle => SmallTextWidget { middle_pressed: pressed, ..self },
        }
    }

    /// The widget showing `style`'s text, styled by its targets.
    pub fn new(style: SmallTextStyle) -> (r: Self)
        requires
            style.text@.len() <= u16::MAX + 1,
        ensures
            r.symbols@ == text_symbols(style.text@, style.symbol_styles@),
            r.char_count == style.text@.len(),
            !r.left_pressed && !r.right_pressed && !r.middle_pressed && !r.is_hovered,
    {
        let symbols = create_symbols(style.text, &style.symbol_styles);
        let chars = text_chars(style.text);
        SmallTextWidget {
            symbols,
            char_count: chars.len(),
            left_pressed: false,
            right_pressed: false,
            middle_pressed: false,
            is_hovered: false,
        }
    }

    /// The symbol at each position.
    pub fn symbols(&self) -> (r: &HashMap<u16, Symbol>)
        ensures
            r == &self.symbols,
    {
        &self.symbols
    }

    /// The symbols, for changing them in place.
    pub fn mut_symbols(&mut self) -> (r: &mut HashMap<u16, Symbol>)
        ensures
            *r == old(self).symbols,
            *final(self) == (SmallTextWidget { symbols: *final(r), ..*old(self) }),
    {
        &mut self.symbols
    }

    /// The symbol shown in column `column` when the widget is drawn from
    /// column `x` in an area `width` columns wide, if any.
    pub fn symbol_at_column(&self, column: u16, x: u16, width: u16) -> (r: Option<Symbol>)
        ensures
            r == if x <= column && (column - x) < width && (column - x) < self.char_count
                && self.symbols@.contains_key((column - x) as u16) {
                Some(self.symbols@[(column - x) as u16])
            } else {
                None
            },
    {
        if x <= column && ((column - x) as usize) < self.char_count && column - x < width {
            match self.symbols.get(&(column - x)) {
                Some(s) => Some(*s),
                None => None,
            }
        } else {
            None
        }
    }

    /// The cursor moved over `symbol` (`None`: off the text).
    pub fn on_mouse_moved(&mut self, symbol: Option<Symbol>) -> (r: Option<InteractionEvent>)
        ensures
            final(self).symbols == old(self).symbols,
            final(self).char_count == old(self).char_count,
            final(self).left_pressed == old(self).left_pressed,
            final(self).right_pressed == old(self).right_pressed,
            final(self).middle_pressed == old(self).middle_pressed,
            final(self).is_hovered == (symbol is Some),
            r == match symbol {
                Some(s) => if old(self).is_hovered {
                    Some(InteractionEvent::HoveredSymbolChanged(s))
                } else {
                    Some(InteractionEvent::Hovered(s))
                },
                None => if old(self).is_hovered {
                    Some(InteractionEvent::Unhovered)
                } else {
                    None
                },
            },
    {
        match symbol {
            Some(s) => {
                if !self.is_hovered {
                    self.is_hovered = true;
                    Some(InteractionEvent::Hovered(s))
                } else {
                    Some(InteractionEvent::HoveredSymbolChanged(s))
                }
            },
            None => {
                if self.is_hovered {
                    self.is_hovered = false;
                    Some(InteractionEvent::Unhovered)
                } else {
                    None
                }
            },
        }
    }

    fn is_pressed(&self, b: MouseButton) -> (r: bool)
        ensures
            r == self.spec_is_pressed(b),
    {
        match b {
            MouseButton::Left => self.left_pressed,
            MouseButton::Right => self.right_pressed,
            MouseButton::Middle => self.middle_pressed,
        }
    }

    fn set_pressed(&mut self, b: MouseButton, pressed: bool)
        ensures
            *final(self) == old(self).with_pressed(b, pressed),
    {
        match b {
            MouseButton::Left => self.left_pressed = pressed,
            MouseButton::Right => self.right_pressed = pressed,
            MouseButton::Middle => self.middle_pressed = pressed,
        }
    }

    /// Button `b` went down over `symbol`: a press is reported when it is
    /// over the text and was not down already.
    pub fn on_mouse_button_down(&mut self, symbol: Option<Symbol>, b: MouseButton) -> (r: Option<
        InteractionEvent,
    >)
        ensures
            match symbol {
                Some(s) => if !old(self).spec_is_pressed(b) {
                    *final(self) == old(self).with_pressed(b, true) && r == Some(
                        InteractionEvent::Pressed(s),
                    )
                } else {
                    *final(self) == *old(self) && r is None
                },
                None => *final(self) == *old(self) && r is None,
            },
    {
        match symbol {
            Some(s) => {
                if !self.is_pressed(b) {
                    self.set_pressed(b, true);
                    Some(InteractionEvent::Pressed(s))
                } else {
                    None
                }
            },
            None => None,
        }
    }

    /// Button `b` went up over `symbol`: a release is reported when it is
    /// over the text and was down.
    pub fn on_mouse_button_up(&mut self, symbol: Option<Symbol>, b: MouseButton) -> (r: Option<
        InteractionEvent,
    >)
        ensures
            match symbol {
                Some(s) => if old(self).spec_is_pressed(b) {
                    *final(self) == old(self).with_pressed(b, false) && r == Some(
                        InteractionEvent::Released(s),
                    )
                } else {
                    *final(self) == *old(self) && r is None
                },
                None => *final(self) == *old(self) && r is None,
            },
    {
        match symbol {
            Some(s) => {
                if self.is_pressed(b) {
                    self.set_pressed(b, false);
                    Some(InteractionEvent::Released(s))
                } else {
                    None
                }
            },
            None => None,
        }
    }
}

} // verus!
