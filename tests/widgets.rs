use caponata::animated::AnimatedSmallTextWidget;
use caponata::animation::AnimationEvent;
use caponata::button::{button_hit_area, ButtonEvent, ButtonStatus, Position, Rect};
use caponata::mode::{AnimationAdvanceMode, AnimationRepeatMode, AnimationStyle};
use caponata::presets::{ScannerAnimationStyle, TickerAnimationDirection, TickerAnimationStyle, WaveAnimationStyle};
use caponata::spinner::{spinner_column, Alignment, SmallSpinnerStyle, SmallSpinnerWidget};
use caponata::step::AnimationStepBuilder;
use caponata::style::{Color, Modifier, Symbol, SymbolStyle};
use caponata::symbol_cycle::{symbol_cycle_by_spinner_type, SmallSpinnerType, SymbolCycle};
use caponata::target::AnimationTarget;
use caponata::text::{
    create_symbols, InteractionEvent, MouseButton, SmallTextStyle, SmallTextStyleBuilder, SmallTextWidget, Target,
};

#[test]
fn symbol_cycle_wraps_and_resets() {
    let mut cycle = SymbolCycle::new(SmallSpinnerType::BrailleDouble);
    assert_eq!(cycle.current_symbol(), "⠘");
    let shown: Vec<&str> = (0..6).map(|_| cycle.next_symbol()).collect();
    assert_eq!(shown, vec!["⠰", "⠤", "⠆", "⠃", "⠉", "⠘"]);
    cycle.next_symbol();
    cycle.reset();
    assert_eq!(cycle.current_symbol(), "⠘");
    assert_eq!(SymbolCycle::default(), SymbolCycle::new(SmallSpinnerType::BrailleDouble));
}

#[test]
fn spinner_symbol_tables() {
    assert_eq!(symbol_cycle_by_spinner_type(SmallSpinnerType::Ascii), vec!["|", "/", "-", "\\"]);
    assert_eq!(symbol_cycle_by_spinner_type(SmallSpinnerType::Arrow).len(), 8);
    assert_eq!(symbol_cycle_by_spinner_type(SmallSpinnerType::Clock).len(), 24);
    assert_eq!(symbol_cycle_by_spinner_type(SmallSpinnerType::MoonPhases).len(), 5);
    assert_eq!(symbol_cycle_by_spinner_type(SmallSpinnerType::VerticalBlock)[0], "▁");
    assert_eq!(SmallSpinnerType::QuadrantBlockCrack.as_str(), "quadrant_block_crack");
}

#[test]
fn spinner_changes_symbol_after_interval() {
    let style = SmallSpinnerStyle::new(SmallSpinnerType::Ascii, 100, Alignment::Left, Color::White, Color::Black);
    let mut spinner = SmallSpinnerWidget::new(style);
    assert_eq!(spinner.symbol_at(1000), "|");
    assert_eq!(spinner.symbol_at(1099), "|");
    assert_eq!(spinner.symbol_at(1100), "/");
    assert_eq!(spinner.symbol_at(1150), "/");
    assert_eq!(spinner.symbol_at(1200), "-");
    spinner.reset();
    assert_eq!(spinner.symbol_at(1250), "|");
    let overflowing = SmallSpinnerStyle::new(SmallSpinnerType::Ascii, u64::MAX, Alignment::Left, Color::White, Color::Black);
    let mut stuck = SmallSpinnerWidget::new(overflowing);
    assert_eq!(stuck.symbol_at(5), "|");
    assert_eq!(stuck.symbol_at(u64::MAX), "|");
}

#[test]
fn spinner_alignment() {
    assert_eq!(spinner_column(Alignment::Left, 0, 5), 0);
    assert_eq!(spinner_column(Alignment::Center, 0, 5), 2);
    assert_eq!(spinner_column(Alignment::Right, 0, 5), 4);
    assert_eq!(spinner_column(Alignment::Right, 3, 1), 3);
    assert_eq!(spinner_column(Alignment::Center, 10, 4), 12);
}

#[test]
fn button_status_transitions() {
    assert_eq!(ButtonStatus::Normal.press(), ButtonStatus::Pressed);
    assert_eq!(ButtonStatus::Disabled.press(), ButtonStatus::Disabled);
    assert_eq!(ButtonStatus::Pressed.unpress(), ButtonStatus::Normal);
    assert_eq!(ButtonStatus::Hovered.unpress(), ButtonStatus::Hovered);
    assert_eq!(ButtonStatus::Hovered.disable(), ButtonStatus::Disabled);
    assert_eq!(ButtonStatus::Disabled.enable(), ButtonStatus::Normal);
    assert_eq!(ButtonStatus::Pressed.enable(), ButtonStatus::Pressed);
    assert_eq!(ButtonStatus::default(), ButtonStatus::Normal);
}

#[test]
fn button_mouse_events() {
    assert_eq!(ButtonStatus::Normal.on_mouse_down(true, true), Some(ButtonEvent::Clicked));
    assert_eq!(ButtonStatus::Normal.on_mouse_down(false, true), None);
    assert_eq!(ButtonStatus::Disabled.on_mouse_down(true, true), None);
    assert_eq!(ButtonStatus::Normal.on_mouse_down(true, false), None);
    assert_eq!(ButtonStatus::Normal.on_mouse_moved(true), (ButtonStatus::Hovered, Some(ButtonEvent::Hovered(false))));
    assert_eq!(ButtonStatus::Hovered.on_mouse_moved(true), (ButtonStatus::Hovered, Some(ButtonEvent::Hovered(true))));
    assert_eq!(ButtonStatus::Hovered.on_mouse_moved(false), (ButtonStatus::Normal, Some(ButtonEvent::Unhovered)));
    assert_eq!(ButtonStatus::Pressed.on_mouse_moved(true), (ButtonStatus::Pressed, Some(ButtonEvent::Hovered(false))));
    assert_eq!(ButtonStatus::Normal.on_mouse_moved(false), (ButtonStatus::Normal, None));
}

#[test]
fn button_hit_areas() {
    let area = Rect { x: 2, y: 5, width: 10, height: 4 };
    let thin = button_hit_area(area, false);
    assert_eq!(thin, Rect { x: 2, y: 6, width: 10, height: 1 });
    assert!(thin.contains(Position { x: 2, y: 6 }));
    assert!(!thin.contains(Position { x: 12, y: 6 }));
    assert!(!thin.contains(Position { x: 5, y: 5 }));
    let thick = button_hit_area(area, true);
    assert_eq!(thick, Rect { x: 2, y: 5, width: 10, height: 3 });
    assert!(thick.contains(Position { x: 11, y: 7 }));
    assert!(!thick.contains(Position { x: 11, y: 8 }));
    let short = button_hit_area(Rect { x: 0, y: 0, width: 3, height: 2 }, false);
    assert_eq!(short, Rect { x: 0, y: 0, width: 3, height: 1 });
}

fn red() -> SymbolStyle {
    SymbolStyle::new(Color::Red, Color::Reset, Modifier::empty())
}

fn blue() -> SymbolStyle {
    SymbolStyle::new(Color::Blue, Color::Reset, Modifier::empty())
}

fn green() -> SymbolStyle {
    SymbolStyle::new(Color::Green, Color::Reset, Modifier::empty())
}

#[test]
fn text_styles_most_specific_wins() {
    let styles = vec![(Target::Every(2), red()), (Target::Single(2), blue()), (Target::Untouched, green())];
    let symbols = create_symbols("hello", &styles);
    assert_eq!(symbols.len(), 5);
    assert_eq!(symbols[&0], Symbol::new('h', red()));
    assert_eq!(symbols[&1], Symbol::new('e', green()));
    assert_eq!(symbols[&2], Symbol::new('l', blue()));
    assert_eq!(symbols[&4], Symbol::new('o', red()));
    let ranged = create_symbols("abcd", &vec![(Target::Range(1, 2), red())]);
    assert_eq!(ranged[&0], Symbol::new('a', SymbolStyle::default()));
    assert_eq!(ranged[&2], Symbol::new('c', red()));
    assert_eq!(ranged[&3], Symbol::new('d', SymbolStyle::default()));
}

#[test]
fn text_style_builder() {
    let style = SmallTextStyleBuilder::default()
        .with_text("abc")
        .for_target(Target::Single(1))
        .set_foreground_color(Color::Red)
        .then()
        .for_target(Target::Untouched)
        .set_style(green())
        .then()
        .for_target(Target::Single(1))
        .set_background_color(Color::Yellow)
        .then()
        .build();
    assert_eq!(style.text, "abc");
    assert_eq!(
        style.symbol_styles,
        vec![
            (Target::Single(1), SymbolStyle::new(Color::Reset, Color::Yellow, Modifier::empty())),
            (Target::Untouched, green()),
        ]
    );
    let empty = SmallTextStyleBuilder::default().build();
    assert_eq!(empty.text, "");
}

#[test]
fn text_widget_mouse() {
    let mut widget = SmallTextWidget::new(SmallTextStyle::new("ab", vec![]));
    let a = Symbol::new('a', SymbolStyle::default());
    let b = Symbol::new('b', SymbolStyle::default());
    assert_eq!(widget.symbol_at_column(10, 10, 5), Some(a));
    assert_eq!(widget.symbol_at_column(11, 10, 5), Some(b));
    assert_eq!(widget.symbol_at_column(12, 10, 5), None);
    assert_eq!(widget.symbol_at_column(11, 10, 1), None);
    assert_eq!(widget.symbol_at_column(9, 10, 5), None);
    assert_eq!(widget.on_mouse_moved(Some(a)), Some(InteractionEvent::Hovered(a)));
    assert_eq!(widget.on_mouse_moved(Some(b)), Some(InteractionEvent::HoveredSymbolChanged(b)));
    assert_eq!(widget.on_mouse_moved(None), Some(InteractionEvent::Unhovered));
    assert_eq!(widget.on_mouse_moved(None), None);
    assert_eq!(widget.on_mouse_button_down(Some(a), MouseButton::Left), Some(InteractionEvent::Pressed(a)));
    assert_eq!(widget.on_mouse_button_down(Some(a), MouseButton::Left), None);
    assert_eq!(widget.on_mouse_button_up(Some(b), MouseButton::Right), None);
    assert_eq!(widget.on_mouse_button_up(Some(b), MouseButton::Left), Some(InteractionEvent::Released(b)));
    assert_eq!(widget.on_mouse_button_up(Some(b), MouseButton::Left), None);
}

fn values(style: &AnimationStyle, step: usize, n: u16) -> String {
    let symbols = create_symbols(&"x".repeat(n as usize), &vec![]);
    let mut animation = caponata::animation::Animation::new(
        AnimationStyle::new(AnimationRepeatMode::Infinite, AnimationAdvanceMode::Auto, vec![style.steps[step].clone()]),
        symbols,
    );
    let frame = animation.next_frame_at(0).unwrap();
    (0..n).map(|x| frame.symbols[&x].value).collect()
}

#[test]
fn ticker_rotates_text() {
    let text_style = SmallTextStyle::new("abc", vec![]);
    let ticker = TickerAnimationStyle {
        direction: TickerAnimationDirection::Forward,
        duration: 50,
        advance_mode: AnimationAdvanceMode::Auto,
        repeat_mode: AnimationRepeatMode::Infinite,
    };
    let style = ticker.into_animation_style(&text_style);
    assert_eq!(style.steps.len(), 3);
    assert_eq!(style.steps[1].duration, 50);
    assert_eq!(values(&style, 0, 3), "abc");
    assert_eq!(values(&style, 1, 3), "cab");
    assert_eq!(values(&style, 2, 3), "bca");
    let backward = TickerAnimationStyle { direction: TickerAnimationDirection::Backward, ..ticker };
    let style = backward.into_animation_style(&text_style);
    assert_eq!(values(&style, 1, 3), "bca");
}

#[test]
fn scanner_sweeps_there_and_back() {
    let text_style = SmallTextStyle::new("abcd", vec![]);
    let scanner = ScannerAnimationStyle {
        text_style: &text_style,
        duration: 20,
        foreground_color: Some(Color::Yellow),
        background_color: None,
        advance_mode: AnimationAdvanceMode::Auto,
        repeat_mode: AnimationRepeatMode::Infinite,
    };
    let style = scanner.into_animation_style();
    assert_eq!(style.steps.len(), 6);
    let targets: Vec<Vec<AnimationTarget>> =
        style.steps.iter().map(|s| s.actions.iter().map(|e| e.0).collect()).collect();
    assert_eq!(targets[0], vec![AnimationTarget::Single(0)]);
    assert_eq!(targets[3], vec![AnimationTarget::Single(3), AnimationTarget::Single(2)]);
    assert_eq!(targets[4], vec![AnimationTarget::Single(2), AnimationTarget::Single(3)]);
    assert_eq!(targets[5], vec![AnimationTarget::Single(1), AnimationTarget::Single(2)]);
}

#[test]
fn wave_head_and_dimmed_tail() {
    let text_style = SmallTextStyle::new("abcde", vec![]);
    let wave = WaveAnimationStyle {
        text_style: &text_style,
        duration: 20,
        foreground_color: Some(Color::Cyan),
        background_color: None,
        advance_mode: AnimationAdvanceMode::Auto,
        repeat_mode: AnimationRepeatMode::Infinite,
    };
    let style = wave.into_animation_style();
    assert_eq!(style.steps.len(), 5);
    let symbols = create_symbols("abcde", &vec![]);
    let mut animation = caponata::animation::Animation::new(
        AnimationStyle::new(AnimationRepeatMode::Infinite, AnimationAdvanceMode::Auto, vec![style.steps[3].clone()]),
        symbols,
    );
    let frame = animation.next_frame_at(0).unwrap();
    assert_eq!(frame.symbols[&3].foreground_color, Color::Cyan);
    assert_eq!(frame.symbols[&2].foreground_color, Color::Cyan);
    assert_eq!(frame.symbols[&2].modifier, Modifier::from_bits(Modifier::DIM));
    assert_eq!(frame.symbols[&1].foreground_color, Color::Reset);
    assert_eq!(frame.symbols[&1].value, 'b');
}

#[test]
fn animated_text_overlays_frames() {
    let step = AnimationStepBuilder::default()
        .with_duration(10)
        .for_target(AnimationTarget::Single(1))
        .update_character('X')
        .then()
        .build();
    let style = AnimationStyle::new(AnimationRepeatMode::Finite(1), AnimationAdvanceMode::Auto, vec![step]);
    let mut widget = AnimatedSmallTextWidget::new(SmallTextStyle::new("abc", vec![]), vec![style]);
    let still = widget.symbols_at(0);
    assert_eq!(still[&1].value, 'b');
    widget.enable_animation(5);
    assert!(widget.active_animation.is_none());
    assert_eq!(widget.take_animation_event(), None);
    widget.enable_animation(0);
    assert_eq!(widget.take_animation_event(), None);
    let frame = widget.symbols_at(0);
    assert_eq!(widget.take_animation_event(), Some(AnimationEvent::FrameGenerated));
    assert_eq!(widget.take_animation_event(), None);
    assert_eq!(frame[&1].value, 'X');
    assert_eq!(frame[&0].value, 'a');
    widget.pause_animation();
    assert_eq!(widget.symbols_at(100)[&1].value, 'X');
    widget.unpause_animation();
    assert_eq!(widget.symbols_at(100)[&1].value, 'X');
    let ended = widget.symbols_at(200);
    assert_eq!(ended[&1].value, 'b');
    assert!(widget.active_animation.is_none());
}
