use caponata::spinner::{spinner_column, Alignment, SmallSpinnerStyle, SmallSpinnerWidget};
use caponata::style::Color;
use caponata::symbol_cycle::SmallSpinnerType;

fn spinner(alignment: Alignment) -> SmallSpinnerWidget {
    let style = SmallSpinnerStyle::new(SmallSpinnerType::BrailleDouble, 0, alignment, Color::Reset, Color::Reset);
    SmallSpinnerWidget::new(style)
}

/// The cell a render of the spinner in an area from column `x`, `width`
/// columns wide, fills, and what it shows.
fn render(spinner: &mut SmallSpinnerWidget, x: u16, width: u16, now: u64) -> (u16, &'static str) {
    let symbol = spinner.symbol_at(now);
    (spinner_column(spinner.style.alignment, x, width), symbol)
}

fn check_cycle(alignment: Alignment, width: u16, column: u16) {
    let mut spinner = spinner(alignment);
    let expected = ["⠘", "⠰", "⠤", "⠆", "⠃", "⠉", "⠘"];
    for (now, symbol) in expected.iter().enumerate() {
        assert_eq!(render(&mut spinner, 0, width, now as u64), (column, *symbol));
    }
}

#[test]
fn left_aligned_spinner() {
    check_cycle(Alignment::Left, 6, 0);
}

#[test]
fn center_aligned_spinner() {
    check_cycle(Alignment::Center, 7, 3);
}

#[test]
fn right_aligned_spinner() {
    check_cycle(Alignment::Right, 5, 4);
}
