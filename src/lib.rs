//! Stateful, animated single-line terminal widgets: a declarative,
//! step-based animation engine for styled character runs, a spinner
//! symbol cycle and the interaction rules of a clickable button.

mod clock;

pub mod style;
pub mod action;
pub mod target;
pub mod step;
pub mod mode;
pub mod repeatable;
pub mod advancable;
pub mod animation;
pub mod text;
pub mod animated;
pub mod presets;
pub mod symbol_cycle;
pub mod spinner;
pub mod button;
