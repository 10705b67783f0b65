use vstd::prelude::*;

verus! {

/// What a button reports after an input event.
#[derive(Debug, Clone, Copy, PartialEq, Eq, Hash, Structural)]
pub enum ButtonEvent {
    /// Clicked with the left mouse button.
    Clicked,
    /// The cursor is over the button; `true` when it already was.
    Hovered(bool),
    /// The cursor left the button that it was over.
    Unhovered,
}

/// The interaction state of a button.
#[derive(Debug, Clone, Copy, PartialEq, Eq, Hash, Structural)]
pub enum ButtonStatus {
    Normal,
    Hovered,
    Pressed,
    Disabled,
}

impl Default for ButtonStatus {
    fn default() -> (r: Self)
        ensures
            r == ButtonStatus::Normal,
    {
        ButtonStatus::Normal
    }
}

/// The block characters added above and below a thick button.
#[derive(Debug, Clone, Copy, PartialEq, Eq, Hash, Structural)]
pub enum ButtonThickness {
    /// One-eighth blocks.
    OneEightBlock,
    /// Half blocks.
    HalfBlock,
}

impl ButtonThickness {
    /// The block drawn along the top and the one drawn along the bottom.
    pub fn line_symbols(&self) -> (r: (&'static str, &'static str))
        ensures
            r == match self {
                ButtonThickness::OneEightBlock => ("\u{2581}", "\u{2594}"),
                ButtonThickness::HalfBlock => ("\u{2584}", "\u{2580}"),
            },
    {
        match self {
            ButtonThickness::OneEightBlock => ("\u{2581}", "\u{2594}"),
            ButtonThickness::HalfBlock => ("\u{2584}", "\u{2580}"),
        }
    }
}

impl Default for ButtonThickness {
    fn default() -> (r: Self)
        ensures
            r == ButtonThickness::OneEightBlock,
    {
        ButtonThickness::OneEightBlock
    }
}

/// A rectangle of terminal cells.
#[derive(Debug, Clone, Copy, PartialEq, Eq, Hash, Structural)]
pub struct Rect {
    pub x: u16,
    pub y: u16,
    pub width: u16,
    pub height: u16,
}

/// A terminal cell.
#[derive(Debug, Clone, Copy, PartialEq, Eq, Hash, Structural)]
pub struct Position {
    pub x: u16,
    pub y: u16,
}

/// `a + b`, saturated to the largest `u16`.
pub open spec fn saturating_add(a: u16, b: u16) -> int {
    if a + b > u16::MAX {
        u16::MAX as int
    } else {
        a + b
    }
}

impl Rect {
    pub open spec fn spec_contains(self, p: Position) -> bool {
        &&& self.x <= p.x
        &&& p.x < saturating_add(self.x, self.width)
        &&& self.y <= p.y
        &&& p.y < saturating_add(self.y, self.height)
    }

    /// Whether `p` lies inside the rectangle (its right and bottom edges
    /// saturate at the largest coordinate).
    pub fn contains(&self, p: Position) -> (r: bool)
        ensures
            r == self.spec_contains(p),
    {
        let right = self.x.saturating_add(self.width);
        let bottom = self.y.saturating_add(self.height);
        self.x <= p.x && p.x < right && self.y <= p.y && p.y < bottom
    }
}

/// The cells of a button drawn in `area` that react to the mouse: the
/// top three rows of a thick button; the single text row of a thin one,
/// which is the second row when the area is at least three rows high.
pub fn button_hit_area(area: Rect, thick: bool) -> (r: Rect)
    ensures
        r.x == area.x,
        r.width == area.width,
        thick ==> r.y == area.y && r.height == if area.height < 3 {
            area.height
        } else {
            3
        },
        !thick ==> r.height == 1 && r.y == if area.height >= 3 {
            saturating_add(area.y, 1)
        } else {
            area.y as int
        },
{
    if thick {
        let height = if area.height < 3 {
            area.height
        } else {
            3
        };
        Rect { x: area.x, y: area.y, width: area.width, height }
    } else if area.height >= 3 {
        Rect { x: area.x, y: area.y.saturating_add(1), width: area.width, height: 1 }
    } else {
        Rect { x: area.x, y: area.y, width: area.width, height: 1 }
    }
}

impl ButtonStatus {
    /// Pressed, unless disabled.
    pub fn press(self) -> (r: Self)
        ensures
            r == if self == ButtonStatus::Disabled {
                self
            } else {
                ButtonStatus::Pressed
            },
    {
        if self != ButtonStatus::Disabled {
            ButtonStatus::Pressed
        } else {
            self
        }
    }

    /// Back to normal when pressed; otherwise unchanged.
    pub fn unpress(self) -> (r: Self)
        ensures
            r == if self == ButtonStatus::Pressed {
                ButtonStatus::Normal
            } else {
                self
            },
    {
        if self == ButtonStatus::Pressed {
            ButtonStatus::Normal
        } else {
            self
        }
    }

    /// Disabled.
    pub fn disable(self) -> (r: Self)
        ensures
            r == ButtonStatus::Disabled,
    {
        ButtonStatus::Disabled
    }

    /// Back to normal when disabled; otherwise unchanged.
    pub fn enable(self) -> (r: Self)
        ensures
            r == if self == ButtonStatus::Disabled {
                ButtonStatus::Normal
            } else {
                self
            },
    {
        if self == ButtonStatus::Disabled {
            ButtonStatus::Normal
        } else {
            self
        }
    }

    /// A mouse button went down; `inside` tells whether the cursor is
    /// over the button. A click is a left button over an enabled button.
    pub fn on_mouse_down(self, left_button: bool, inside: bool) -> (r: Option<ButtonEvent>)
        ensures
            r == if left_button && self != ButtonStatus::Disabled && inside {
                Some(ButtonEvent::Clicked)
            } else {
                None
            },
    {
        if left_button && self != ButtonStatus::Disabled && inside {
            Some(ButtonEvent::Clicked)
        } else {
            None
        }
    }

    /// The cursor moved; `inside` tells whether it is over the button.
    /// Returns the new status and the event to report.
    pub fn on_mouse_moved(self, inside: bool) -> (r: (ButtonStatus, Option<ButtonEvent>))
        ensures
            r == match (self, inside) {
                (ButtonStatus::Hovered, false) => (
                    ButtonStatus::Normal,
                    Some(ButtonEvent::Unhovered),
                ),
                (ButtonStatus::Hovered, true) => (self, Some(ButtonEvent::Hovered(true))),
                (ButtonStatus::Normal, true) => (
                    ButtonStatus::Hovered,
                    Some(ButtonEvent::Hovered(false)),
                ),
                (_, true) => (self, Some(ButtonEvent::Hovered(false))),
                (_, false) => (self, None),
            },
    {
        match (self, inside) {
            (ButtonStatus::Hovered, false) => (ButtonStatus::Normal, Some(ButtonEvent::Unhovered)),
            (ButtonStatus::Hovered, true) => (self, Some(ButtonEvent::Hovered(true))),
            (ButtonStatus::Normal, true) => (ButtonStatus::Hovered, Some(ButtonEvent::Hovered(false))),
            (_, true) => (self, Some(ButtonEvent::Hovered(false))),
            (_, false) => (self, None),
        }
    }
}

} // verus!
