use term_painter::Attr::Plain;
use term_painter::Color::{Blue, Red};
use term_painter::{Color, DriverCmd, DriverError, RecordingDriver, Style, ToStyle};

#[test]
fn term_constants_match_the_terminal_backend() {
    // The palette constants this crate hands to a driver are the ones the
    // `term` backend defines.
    assert_eq!(Color::Black.term_constant(), Some(term::color::BLACK));
    assert_eq!(Color::Red.term_constant(), Some(term::color::RED));
    assert_eq!(Color::Green.term_constant(), Some(term::color::GREEN));
    assert_eq!(Color::Yellow.term_constant(), Some(term::color::YELLOW));
    assert_eq!(Color::Blue.term_constant(), Some(term::color::BLUE));
    assert_eq!(Color::Magenta.term_constant(), Some(term::color::MAGENTA));
    assert_eq!(Color::Cyan.term_constant(), Some(term::color::CYAN));
    assert_eq!(Color::White.term_constant(), Some(term::color::WHITE));
    assert_eq!(Color::BrightBlack.term_constant(), Some(term::color::BRIGHT_BLACK));
    assert_eq!(Color::BrightRed.term_constant(), Some(term::color::BRIGHT_RED));
    assert_eq!(Color::BrightGreen.term_constant(), Some(term::color::BRIGHT_GREEN));
    assert_eq!(Color::BrightYellow.term_constant(), Some(term::color::BRIGHT_YELLOW));
    assert_eq!(Color::BrightBlue.term_constant(), Some(term::color::BRIGHT_BLUE));
    assert_eq!(Color::BrightMagenta.term_constant(), Some(term::color::BRIGHT_MAGENTA));
    assert_eq!(Color::BrightCyan.term_constant(), Some(term::color::BRIGHT_CYAN));
    assert_eq!(Color::BrightWhite.term_constant(), Some(term::color::BRIGHT_WHITE));
    assert_eq!(Color::NotSet.term_constant(), None);
    assert_eq!(Color::Custom(137).term_constant(), Some(137));
    assert_eq!(Color::default(), Color::NotSet);
}

#[test]
fn default_style_applies_nothing() {
    // The default style changes nothing when applied: no commands at all.
    let mut d = RecordingDriver::new();
    assert_eq!(Style::default().apply(&mut d), Ok(()));
    assert_eq!(d.log, vec![]);
}

#[test]
fn apply_issues_one_command_per_set_field_in_order() {
    let mut d = RecordingDriver::new();
    let s = Plain.fg(Red).bg(Blue).bold().underline();
    assert_eq!(s.apply(&mut d), Ok(()));
    assert_eq!(
        d.log,
        vec![
            DriverCmd::Fg(term::color::RED),
            DriverCmd::Bg(term::color::BLUE),
            DriverCmd::Bold,
            DriverCmd::Underline(true),
        ]
    );
    assert_eq!(d.oks, vec![true, true, true, true]);
}

#[test]
fn apply_issues_explicit_underline_off() {
    // Underline is the one attribute the driver can turn off explicitly.
    let mut d = RecordingDriver::new();
    assert_eq!(Plain.not_underline().apply(&mut d), Ok(()));
    assert_eq!(d.log, vec![DriverCmd::Underline(false)]);
}

#[test]
fn apply_skips_flags_that_are_explicitly_off() {
    // Bold has no off command; an explicitly-off bold flag issues nothing.
    let mut d = RecordingDriver::new();
    let mut s = Style::default();
    s.set_bold(Some(false));
    assert_eq!(s.apply(&mut d), Ok(()));
    assert_eq!(d.log, vec![]);
}

#[test]
fn apply_passes_custom_palette_indices_through() {
    let mut d = RecordingDriver::new();
    assert_eq!(Plain.fg(Color::Custom(214)).apply(&mut d), Ok(()));
    assert_eq!(d.log, vec![DriverCmd::Fg(214)]);
}

#[test]
fn apply_covers_every_attribute() {
    let mut d = RecordingDriver::new();
    let s = Plain.bold().dim().underline().blink().reverse().secure();
    assert_eq!(s.apply(&mut d), Ok(()));
    assert_eq!(
        d.log,
        vec![
            DriverCmd::Bold,
            DriverCmd::Dim,
            DriverCmd::Underline(true),
            DriverCmd::Blink,
            DriverCmd::Reverse,
            DriverCmd::Secure,
        ]
    );
}

#[test]
fn apply_stops_at_the_first_failed_command() {
    // The driver accepts one command and fails on the next; the failing
    // command is attempted, the rest of the plan is abandoned.
    let mut d = RecordingDriver::failing_after(1);
    let s = Plain.fg(Red).bold().underline();
    assert_eq!(s.apply(&mut d), Err(DriverError));
    assert_eq!(d.log, vec![DriverCmd::Fg(term::color::RED), DriverCmd::Bold]);
    // Every command before the refused one was accepted; the refusal is the
    // last recorded outcome.
    assert_eq!(d.oks, vec![true, false]);
}

#[test]
fn revert_resets_then_reapplies() {
    let mut d = RecordingDriver::new();
    assert_eq!(Plain.fg(Red).revert_to(&mut d), Ok(()));
    assert_eq!(d.log, vec![DriverCmd::Reset, DriverCmd::Fg(term::color::RED)]);
}

#[test]
fn revert_fails_without_applying_when_reset_fails() {
    let mut d = RecordingDriver::failing_after(0);
    assert_eq!(Plain.fg(Red).revert_to(&mut d), Err(DriverError));
    assert_eq!(d.log, vec![DriverCmd::Reset]);
    assert_eq!(d.oks, vec![false]);
}

#[test]
fn apply_cmds_names_the_plan_without_a_driver() {
    let s = Plain.fg(Red).bold();
    assert_eq!(s.apply_cmds(), vec![DriverCmd::Fg(term::color::RED), DriverCmd::Bold]);
    let mut d = RecordingDriver::new();
    let _ = s.apply(&mut d);
    assert_eq!(d.log, s.apply_cmds());
}
