use std::collections::HashMap;

use caponata::action::{execute_actions, AnimationAction};
use caponata::animation::{Animation, AnimationEvent, AnimationFrame};
use caponata::mode::{AnimationAdvanceMode, AnimationRepeatMode, AnimationStyle};
use caponata::repeatable::{InfinitelyRepeatableAnimation, RepeatableAnimation};
use caponata::step::{AnimationStep, AnimationStepBuilder};
use caponata::style::{Color, Modifier, Symbol, SymbolStyle};
use caponata::target::{resolve_target, AnimationTarget, StepSymbolState};

fn plain(value: char) -> Symbol {
    Symbol::new(value, SymbolStyle::default())
}

fn three_symbols() -> HashMap<u16, Symbol> {
    HashMap::from([(0, plain('a')), (1, plain('b')), (2, plain('c'))])
}

fn marked_step(c: char, duration: u64) -> AnimationStep {
    AnimationStepBuilder::default()
        .with_duration(duration)
        .for_target(AnimationTarget::UntouchedThisStep)
        .update_character(c)
        .then()
        .build()
}

fn round_trip_style() -> AnimationStyle {
    let step0 = AnimationStepBuilder::default()
        .with_duration(100)
        .for_target(AnimationTarget::Single(0))
        .add_modifier(Modifier::from_bits(Modifier::BOLD))
        .then()
        .for_target(AnimationTarget::UntouchedThisStep)
        .update_foreground_color(Color::White)
        .then()
        .build();
    let step1 = AnimationStepBuilder::default()
        .with_duration(100)
        .for_target(AnimationTarget::Single(1))
        .update_foreground_color(Color::Green)
        .then()
        .for_target(AnimationTarget::UntouchedThisStep)
        .update_foreground_color(Color::White)
        .then()
        .build();
    AnimationStyle::new(AnimationRepeatMode::Finite(1), AnimationAdvanceMode::Auto, vec![step0, step1])
}

#[test]
fn round_trip_scenario() {
    let mut animation = Animation::new(round_trip_style(), three_symbols());
    let bold = Modifier::from_bits(Modifier::BOLD);

    let first = animation.next_frame_at(0).unwrap();
    assert_eq!(first.symbols.len(), 3);
    assert_eq!(first.symbols[&0].modifier, bold);
    assert_eq!(first.symbols[&0].foreground_color, Color::Reset);
    assert_eq!(first.symbols[&1].foreground_color, Color::White);
    assert_eq!(first.symbols[&2].foreground_color, Color::White);
    assert_eq!(first.symbols[&1].modifier, Modifier::empty());
    assert_eq!(animation.take_last_event(), Some(AnimationEvent::FrameGenerated));
    assert_eq!(animation.take_last_event(), None);

    let early = animation.next_frame_at(99).unwrap();
    assert_eq!(early, first);

    let second = animation.next_frame_at(100).unwrap();
    assert_eq!(second.symbols[&1].foreground_color, Color::Green);
    assert_eq!(second.symbols[&0].foreground_color, Color::White);
    assert_eq!(second.symbols[&2].foreground_color, Color::White);
    // Bold set by the first step is not cleared by the second.
    assert_eq!(second.symbols[&0].modifier, bold);

    let third = animation.next_frame_at(150).unwrap();
    assert_eq!(third, second);

    assert_eq!(animation.next_frame_at(200), None);
    assert_eq!(animation.take_last_event(), Some(AnimationEvent::Ended));
    assert_eq!(animation.next_frame_at(1000), None);
}

#[test]
fn priority_single_over_every() {
    let step = AnimationStepBuilder::default()
        .with_duration(10)
        .for_target(AnimationTarget::Every(2))
        .update_foreground_color(Color::Red)
        .then()
        .for_target(AnimationTarget::Single(2))
        .update_foreground_color(Color::Blue)
        .then()
        .build();
    let style = AnimationStyle::new(AnimationRepeatMode::Infinite, AnimationAdvanceMode::Auto, vec![step]);
    let symbols: HashMap<u16, Symbol> = (0..5).map(|x| (x, plain('x'))).collect();
    let mut animation = Animation::new(style, symbols);
    let frame = animation.next_frame_at(0).unwrap();
    assert_eq!(frame.symbols[&2].foreground_color, Color::Blue);
    assert_eq!(frame.symbols[&0].foreground_color, Color::Red);
    assert_eq!(frame.symbols[&4].foreground_color, Color::Red);
    assert_eq!(frame.symbols[&1].foreground_color, Color::Reset);
    assert_eq!(frame.symbols[&3].foreground_color, Color::Reset);
}

#[test]
fn resolution_is_repeatable() {
    let states = vec![
        (1u16, StepSymbolState::Initial(plain('a'))),
        (3, StepSymbolState::Untouched(plain('b'))),
        (4, StepSymbolState::Styled(plain('c'))),
        (7, StepSymbolState::Initial(plain('d'))),
    ];
    let targets = [
        AnimationTarget::Single(3),
        AnimationTarget::Single(9),
        AnimationTarget::Range(2, 4),
        AnimationTarget::Every(2),
        AnimationTarget::Every(0),
        AnimationTarget::EveryFrom(2, 1),
        AnimationTarget::ExceptEvery(2),
        AnimationTarget::ExceptEveryFrom(2, 1),
        AnimationTarget::Untouched,
        AnimationTarget::UntouchedThisStep,
    ];
    let expected: [Vec<u16>; 10] = [
        vec![3],
        vec![9],
        vec![2, 3, 4],
        vec![1, 4],
        vec![],
        vec![3, 7],
        vec![3, 7],
        vec![4],
        vec![1, 7],
        vec![1, 3, 7],
    ];
    for (t, e) in targets.iter().zip(expected.iter()) {
        let first = resolve_target(t, &states);
        let second = resolve_target(t, &states);
        assert_eq!(&first, e);
        assert_eq!(first, second);
    }
}

#[test]
fn single_and_range_ignore_the_state() {
    let empty: Vec<(u16, StepSymbolState)> = vec![];
    assert_eq!(resolve_target(&AnimationTarget::Single(5), &empty), vec![5]);
    assert_eq!(resolve_target(&AnimationTarget::Range(7, 9), &empty), vec![7, 8, 9]);
    assert_eq!(resolve_target(&AnimationTarget::Range(9, 7), &empty), Vec::<u16>::new());
    assert_eq!(resolve_target(&AnimationTarget::Range(u16::MAX, u16::MAX), &empty), vec![u16::MAX]);
    assert_eq!(resolve_target(&AnimationTarget::Every(1), &empty), Vec::<u16>::new());
    assert_eq!(resolve_target(&AnimationTarget::Range(0, u16::MAX), &empty).len(), 65536);
}

#[test]
fn infinitely_repeatable_variant_wraps() {
    let steps = vec![marked_step('0', 0), marked_step('1', 0), marked_step('2', 0)];
    let mut r = InfinitelyRepeatableAnimation::new(steps.clone());
    assert_eq!(r.current_step(), steps[0]);
    let results: Vec<_> = (0..7).map(|_| r.next_step()).collect();
    for k in 0..7 {
        assert_eq!(results[k], steps[(k + 1) % 3]);
    }
}

#[test]
fn finite_exhaustion() {
    let steps = vec![marked_step('0', 0), marked_step('1', 0), marked_step('2', 0)];
    let mut r = RepeatableAnimation::new(steps.clone(), AnimationRepeatMode::Finite(2));
    assert_eq!(r.current_step(), Some(steps[0].clone()));
    let expected = [1, 2, 0, 1, 2];
    for i in expected {
        assert_eq!(r.next_step(), Some(steps[i].clone()));
        assert_eq!(r.current_step(), Some(steps[i].clone()));
    }
    for _ in 0..100 {
        assert_eq!(r.next_step(), None);
        assert_eq!(r.current_step(), None);
    }
}

#[test]
fn finite_zero_plays_once() {
    let steps = vec![marked_step('0', 0), marked_step('1', 0)];
    let mut r = RepeatableAnimation::new(steps.clone(), AnimationRepeatMode::Finite(0));
    assert_eq!(r.current_step(), Some(steps[0].clone()));
    assert_eq!(r.next_step(), Some(steps[1].clone()));
    assert_eq!(r.next_step(), None);
    assert_eq!(r.next_step(), None);
}

#[test]
fn infinite_wrap() {
    let steps = vec![marked_step('0', 0), marked_step('1', 0), marked_step('2', 0)];
    let mut r = RepeatableAnimation::new(steps.clone(), AnimationRepeatMode::Infinite);
    let first = r.current_step();
    let results: Vec<_> = (0..4).map(|_| r.next_step()).collect();
    assert_eq!(results[0], Some(steps[1].clone()));
    assert_eq!(results[1], Some(steps[2].clone()));
    assert_eq!(results[2], first);
    assert_eq!(results[3], results[0]);
}

#[test]
fn empty_style_never_progresses() {
    let style = AnimationStyle::new(AnimationRepeatMode::Infinite, AnimationAdvanceMode::Auto, vec![]);
    let mut animation = Animation::new(style, three_symbols());
    assert_eq!(animation.next_frame_at(0), None);
    assert_eq!(animation.next_frame_at(10_000), None);
    let mut r = RepeatableAnimation::new(vec![], AnimationRepeatMode::Finite(3));
    assert_eq!(r.current_step(), None);
    assert_eq!(r.next_step(), None);
}

fn counting_style(advance_mode: AnimationAdvanceMode) -> AnimationStyle {
    let steps = vec![marked_step('0', 10), marked_step('1', 10), marked_step('2', 10)];
    AnimationStyle::new(AnimationRepeatMode::Infinite, advance_mode, steps)
}

fn shown(frame: &AnimationFrame) -> char {
    frame.symbols[&0].value
}

#[test]
fn manual_gating() {
    let mut animation = Animation::new(counting_style(AnimationAdvanceMode::Manual), three_symbols());
    let first = animation.next_frame_at(0).unwrap();
    let second = animation.next_frame_at(500).unwrap();
    assert_eq!(first, second);
    assert_eq!(shown(&first), '0');
    animation.advance();
    let third = animation.next_frame_at(600).unwrap();
    assert_eq!(shown(&third), '1');
    let fourth = animation.next_frame_at(1000).unwrap();
    assert_eq!(shown(&fourth), '1');
}

#[test]
fn manual_advance_waits_for_duration() {
    let mut animation = Animation::new(counting_style(AnimationAdvanceMode::Manual), three_symbols());
    animation.next_frame_at(0);
    animation.advance();
    assert_eq!(shown(&animation.next_frame_at(5).unwrap()), '0');
    assert_eq!(shown(&animation.next_frame_at(10).unwrap()), '1');
}

#[test]
fn pause_idempotence() {
    let mut animation = Animation::new(counting_style(AnimationAdvanceMode::Auto), three_symbols());
    animation.next_frame_at(0);
    assert_eq!(shown(&animation.next_frame_at(10).unwrap()), '1');
    animation.pause();
    animation.pause();
    let paused = animation.next_frame_at(15).unwrap();
    for t in [20, 100, 1000, 5000] {
        assert_eq!(animation.next_frame_at(t).unwrap(), paused);
    }
    animation.unpause();
    // Timing restarts at the first frame after unpausing.
    assert_eq!(animation.next_frame_at(6000).unwrap(), paused);
    assert_eq!(animation.next_frame_at(6009).unwrap(), paused);
    assert_eq!(shown(&animation.next_frame_at(6010).unwrap()), '2');
}

#[test]
fn auto_advance_by_duration() {
    let mut animation = Animation::new(counting_style(AnimationAdvanceMode::Auto), three_symbols());
    assert_eq!(shown(&animation.next_frame_at(0).unwrap()), '0');
    assert_eq!(shown(&animation.next_frame_at(9).unwrap()), '0');
    assert_eq!(shown(&animation.next_frame_at(10).unwrap()), '1');
    assert_eq!(shown(&animation.next_frame_at(25).unwrap()), '2');
    assert_eq!(shown(&animation.next_frame_at(35).unwrap()), '0');
    // A clock that goes back never advances.
    assert_eq!(shown(&animation.next_frame_at(1).unwrap()), '0');
}

#[test]
fn untouched_targets_follow_history() {
    let step0 = AnimationStepBuilder::default()
        .for_target(AnimationTarget::Single(0))
        .update_character('A')
        .then()
        .build();
    let step1 = AnimationStepBuilder::default()
        .for_target(AnimationTarget::Untouched)
        .update_character('U')
        .then()
        .for_target(AnimationTarget::UntouchedThisStep)
        .update_character('T')
        .then()
        .build();
    let style = AnimationStyle::new(AnimationRepeatMode::Finite(1), AnimationAdvanceMode::Auto, vec![step0, step1]);
    let mut animation = Animation::new(style, three_symbols());
    let first = animation.next_frame_at(0).unwrap();
    assert_eq!(first.symbols[&0].value, 'A');
    assert_eq!(first.symbols[&1].value, 'b');
    let second = animation.next_frame_at(1).unwrap();
    assert_eq!(second.symbols[&0].value, 'T');
    assert_eq!(second.symbols[&1].value, 'U');
    assert_eq!(second.symbols[&2].value, 'U');
}

#[test]
fn missing_positions_are_skipped() {
    let step = AnimationStepBuilder::default()
        .for_target(AnimationTarget::Single(40))
        .update_character('z')
        .then()
        .for_target(AnimationTarget::Range(1, 100))
        .update_character('r')
        .then()
        .build();
    let style = AnimationStyle::new(AnimationRepeatMode::Infinite, AnimationAdvanceMode::Auto, vec![step]);
    let mut animation = Animation::new(style, three_symbols());
    let frame = animation.next_frame_at(0).unwrap();
    assert_eq!(frame.symbols.len(), 3);
    assert_eq!(frame.symbols[&0].value, 'a');
    assert_eq!(frame.symbols[&1].value, 'r');
    assert_eq!(frame.symbols[&2].value, 'r');
}

#[test]
fn actions_apply_in_order() {
    let start = Symbol::new('a', SymbolStyle::new(Color::Red, Color::Blue, Modifier::from_bits(Modifier::ITALIC)));
    let actions = vec![
        AnimationAction::UpdateCharacter('b'),
        AnimationAction::AddModifier(Modifier::from_bits(Modifier::BOLD | Modifier::DIM)),
        AnimationAction::RemoveModifier(Modifier::from_bits(Modifier::DIM)),
        AnimationAction::UpdateBackgroundColor(Color::Rgb(1, 2, 3)),
        AnimationAction::UpdateForegroundColor(Color::Indexed(7)),
    ];
    let r = execute_actions(start, &actions);
    assert_eq!(r.value, 'b');
    assert_eq!(r.modifier, Modifier::from_bits(Modifier::ITALIC | Modifier::BOLD));
    assert_eq!(r.background_color, Color::Rgb(1, 2, 3));
    assert_eq!(r.foreground_color, Color::Indexed(7));
    let cleared = execute_actions(r, &vec![AnimationAction::RemoveAllModifiers]);
    assert_eq!(cleared.modifier, Modifier::empty());
}

#[test]
fn builder_replaces_actions_of_same_target() {
    let step = AnimationStepBuilder::default()
        .for_target(AnimationTarget::Single(1))
        .update_character('x')
        .then()
        .for_target(AnimationTarget::Untouched)
        .update_character('u')
        .then()
        .for_target(AnimationTarget::Single(1))
        .update_character('y')
        .then()
        .build();
    assert_eq!(step.duration, 0);
    assert_eq!(step.actions.len(), 2);
    assert_eq!(step.actions[0], (AnimationTarget::Single(1), vec![AnimationAction::UpdateCharacter('y')]));
    assert_eq!(step.actions[1].0, AnimationTarget::Untouched);
}

#[test]
fn next_frame_reads_the_clock() {
    let mut animation = Animation::new(counting_style(AnimationAdvanceMode::Auto), three_symbols());
    let frame = animation.next_frame().unwrap();
    assert_eq!(shown(&frame), '0');
}
