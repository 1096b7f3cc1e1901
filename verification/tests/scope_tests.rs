use term_painter::Attr::{Bold, Plain};
use term_painter::Color::{Green, Red};
use term_painter::{DriverCmd, RecordingDriver, Style, StyleContext, ToStyle};

#[test]
fn a_fresh_context_believes_the_default_style_active() {
    let ctx = StyleContext::new();
    assert_eq!(ctx.current, Style::default());
}

#[test]
fn entering_a_scope_merges_onto_the_active_style() {
    let mut ctx = StyleContext::new();
    let mut d = RecordingDriver::new();
    let before = ctx.enter(&mut d, Red.to_style());
    assert_eq!(before, Style::default());
    assert_eq!(ctx.current, Plain.fg(Red));
    let before_inner = ctx.enter(&mut d, Bold.to_style());
    assert_eq!(before_inner, Plain.fg(Red));
    // The inner scope's bold merges over the outer scope's color.
    assert_eq!(ctx.current, Plain.fg(Red).bold());
}

#[test]
fn exiting_restores_the_snapshot_exactly() {
    let mut ctx = StyleContext::new();
    let mut d = RecordingDriver::new();
    let before = ctx.enter(&mut d, Red.bold());
    ctx.exit(&mut d, before);
    assert_eq!(ctx.current, Style::default());
    // The driver saw the apply, then a reset and the re-apply of the
    // (empty) default style.
    assert_eq!(
        d.log,
        vec![DriverCmd::Fg(term::color::RED), DriverCmd::Bold, DriverCmd::Reset]
    );
}

#[test]
fn with_restores_the_active_style_at_any_nesting_depth() {
    let mut ctx = StyleContext::new();
    let mut d = RecordingDriver::new();
    let start = ctx.current;
    Red.with(&mut ctx, &mut d, |c: &mut StyleContext, dd: &mut RecordingDriver| {
        assert_eq!(c.current, Plain.fg(Red));
        Bold.with(c, dd, |c2: &mut StyleContext, dd2: &mut RecordingDriver| {
            assert_eq!(c2.current, Plain.fg(Red).bold());
            Green.with(c2, dd2, |c3: &mut StyleContext, _dd3: &mut RecordingDriver| {
                assert_eq!(c3.current, Plain.fg(Green).bold());
            });
            assert_eq!(c2.current, Plain.fg(Red).bold());
        });
        assert_eq!(c.current, Plain.fg(Red));
    });
    assert_eq!(ctx.current, start);
}

#[test]
fn with_returns_what_the_work_returns() {
    // Styling is a side channel: the value computed inside a styled scope
    // comes back unchanged, whatever the style.
    let mut ctx = StyleContext::new();
    let mut d = RecordingDriver::new();
    let plain_text = Plain.with(
        &mut ctx,
        &mut d,
        |_c: &mut StyleContext, _dd: &mut RecordingDriver| format!("{}", 5),
    );
    let styled_text = Red.bold().with(
        &mut ctx,
        &mut d,
        |_c: &mut StyleContext, _dd: &mut RecordingDriver| format!("{}", 5),
    );
    assert_eq!(plain_text, "5");
    assert_eq!(styled_text, plain_text);
}

#[test]
fn with_applies_before_and_reverts_after_the_work() {
    let mut ctx = StyleContext::new();
    let mut d = RecordingDriver::new();
    Red.with(&mut ctx, &mut d, |_c: &mut StyleContext, dd: &mut RecordingDriver| {
        // Only the scope entry has talked to the driver so far.
        assert_eq!(dd.log, vec![DriverCmd::Fg(term::color::RED)]);
    });
    assert_eq!(
        d.log,
        vec![DriverCmd::Fg(term::color::RED), DriverCmd::Reset]
    );
}

#[test]
fn with_keeps_working_when_the_driver_fails() {
    // A driver that fails on every command must not disturb the result or
    // the context's bookkeeping: styling is best effort.
    let mut ctx = StyleContext::new();
    let mut d = RecordingDriver::failing_after(0);
    let start = ctx.current;
    let out = Red.bold().with(
        &mut ctx,
        &mut d,
        |_c: &mut StyleContext, _dd: &mut RecordingDriver| 27,
    );
    assert_eq!(out, 27);
    assert_eq!(ctx.current, start);
}

#[test]
fn paint_bundles_the_style_and_the_object() {
    let p = Red.bold().paint("cheesecake");
    assert_eq!(p.style, Plain.fg(Red).bold());
    assert_eq!(p.obj, "cheesecake");
    let q = Plain.paint(27);
    assert_eq!(q.style, Style::default());
    assert_eq!(q.obj, 27);
}

#[test]
fn paint_by_reference_keeps_the_original_usable() {
    let non_copy = String::from("cake");
    let p = Red.paint(&non_copy);
    assert_eq!(p.obj, &non_copy);
    assert_eq!(p.style, Plain.fg(Red));
    assert_eq!(non_copy, "cake");
}

#[test]
fn deeply_nested_scopes_unwind_in_order() {
    fn nest(ctx: &mut StyleContext, d: &mut RecordingDriver, depth: u32) {
        if depth == 0 {
            return;
        }
        let snapshot = ctx.current;
        Bold.with(ctx, d, |c: &mut StyleContext, dd: &mut RecordingDriver| {
            nest(c, dd, depth - 1);
        });
        assert_eq!(ctx.current, snapshot);
    }
    let mut ctx = StyleContext::new();
    let mut d = RecordingDriver::new();
    ctx.enter(&mut d, Green.to_style());
    nest(&mut ctx, &mut d, 4);
    assert_eq!(ctx.current, Plain.fg(Green));
}
