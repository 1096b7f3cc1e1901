use term_painter::Attr::{Bold, Plain};
use term_painter::Color::{Blue, Red};
use term_painter::{Attr, Color, Style, ToStyle};

#[test]
fn modifier_order() {
    // The order of modifiers shouldn't play a role.
    assert_eq!(Plain.bold().fg(Red), Plain.fg(Red).bold());
    assert_eq!(Plain.bold().bg(Red), Plain.bg(Red).bold());
    assert_eq!(Plain.underline().fg(Red), Plain.fg(Red).underline());

    // The startpoints should have the same effect as the modifier.
    assert_eq!(Red.to_style(), Plain.fg(Red));
    assert_eq!(Bold.to_style(), Plain.bold());
}

#[test]
fn modifier_override() {
    // The latter modifier should override the one before
    assert_eq!(Plain.fg(Red).fg(Blue), Plain.fg(Blue));
    assert_eq!(Plain.fg(Red).fg(Blue), Blue.to_style());
    assert_eq!(Red.fg(Blue), Plain.fg(Blue));
    assert_eq!(Red.fg(Blue), Blue.to_style());
}

#[test]
fn style_and() {
    let s1 = Style::default().bold().not_underline();
    let s2 = Style::default().underline();
    let s3 = Style::default().bold();

    let r1 = Style::default().bold().underline();
    let r2 = Style::default().bold().not_underline();

    assert_eq!(s2.and(s1), r2);
    assert_eq!(s2.and(s1).and(s3), r2);
    assert_eq!(s2.and(s3), r1);
}

#[test]
fn merge_keeps_colors_the_sentinel_has_no_opinion_on() {
    // A has a foreground; B leaves both colors at the sentinel. Merging B
    // over A must not clear A's colors: the sentinel never overrides.
    let a = Style::default().fg(Red).bold();
    let b = Style::default();
    assert_eq!(a.and(b).get_fg(), a.get_fg());
    assert_eq!(a.and(b).get_bg(), a.get_bg());
    assert_eq!(a.and(b), a);
}

#[test]
fn merge_colors_override_when_set() {
    let a = Style::default().fg(Red);
    let b = Style::default().fg(Blue);
    assert_eq!(a.and(b).get_fg(), b.get_fg());
    assert_eq!(b.and(a).get_fg(), a.get_fg());
}

#[test]
fn getters_read_back_what_setters_wrote() {
    let mut s = Style::default();
    assert_eq!(s.get_bold(), None);
    assert_eq!(s.get_underline(), None);
    s.set_bold(Some(true));
    s.set_underline(Some(false));
    s.set_secure(Some(true));
    assert_eq!(s.get_bold(), Some(true));
    assert_eq!(s.get_underline(), Some(false));
    assert_eq!(s.get_secure(), Some(true));
    assert_eq!(s.get_dim(), None);
    assert_eq!(s.get_blink(), None);
    assert_eq!(s.get_reverse(), None);
    s.set_bold(None);
    assert_eq!(s.get_bold(), None);
    assert_eq!(s, Style::default().not_underline().secure());
}

#[test]
fn unset_and_explicitly_off_differ() {
    // Structural equality distinguishes an unset flag from an explicit off.
    assert_ne!(Style::default(), Style::default().not_underline());
    assert_ne!(Plain.underline(), Plain.not_underline());
}

#[test]
fn all_modifiers_reach_their_flag() {
    assert_eq!(Plain.bold().get_bold(), Some(true));
    assert_eq!(Plain.dim().get_dim(), Some(true));
    assert_eq!(Plain.underline().get_underline(), Some(true));
    assert_eq!(Plain.not_underline().get_underline(), Some(false));
    assert_eq!(Plain.blink().get_blink(), Some(true));
    assert_eq!(Plain.reverse().get_reverse(), Some(true));
    assert_eq!(Plain.secure().get_secure(), Some(true));
    assert_eq!(Plain.fg(Red).get_fg(), Red);
    assert_eq!(Plain.bg(Blue).get_bg(), Blue);
}

#[test]
fn attr_startpoints_match_their_modifier() {
    assert_eq!(Attr::Dim.to_style(), Plain.dim());
    assert_eq!(Attr::Underline.to_style(), Plain.underline());
    assert_eq!(Attr::Blink.to_style(), Plain.blink());
    assert_eq!(Attr::Reverse.to_style(), Plain.reverse());
    assert_eq!(Attr::Secure.to_style(), Plain.secure());
    assert_eq!(Attr::Plain.to_style(), Style::default());
}

#[test]
fn to_mapped_style_applies_the_given_update() {
    let s = Plain.to_mapped_style(|st: &mut Style| st.set_bold(Some(true)));
    assert_eq!(s, Plain.bold());
}

#[test]
fn merge_handles_custom_palette_colors_like_any_other() {
    let a = Style::default().fg(Color::Custom(17));
    let b = Style::default().fg(Color::Custom(42));
    assert_eq!(a.and(b), b.and(b));
    assert_eq!(b.and(Style::default()).get_fg(), Color::Custom(42));
}
