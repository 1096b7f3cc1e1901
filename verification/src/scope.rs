use vstd::prelude::*;
use crate::driver::Driver;
use crate::style::Style;

verus! {

/// The per-context record of the style believed active on the terminal.
///
/// Real terminal state cannot be read back, so every execution context (for
/// example a thread) keeps its own account of what it has applied. A context
/// starts with the default style — the terminal is assumed to be in its
/// default state — and is updated on every scope entry and exit. The call
/// stack itself holds the history: each scope keeps its `before` snapshot as
/// a local, so no explicit stack is needed here.
pub struct StyleContext {
    /// The style currently believed active.
    pub current: Style,
}

impl StyleContext {
    /// A fresh context: the default style is believed active.
    pub fn new() -> (ctx: StyleContext)
        ensures
            ctx.current == Style::spec_default(),
    {
        StyleContext { current: Style::default() }
    }

    /// Enters a styled scope: applies `new` through the driver and records
    /// the merge of the previously active style with `new` as active.
    /// Returns the previously active style, which [`StyleContext::exit`]
    /// expects back when the scope ends. A driver failure is deliberately
    /// ignored: styling is cosmetic and must never abort the caller's work.
    pub fn enter<D: Driver>(&mut self, d: &mut D, new: Style) -> (before: Style)
        ensures
            before == old(self).current,
            final(self).current == old(self).current.spec_and(new),
            exists|k: int|
                0 <= k <= new.spec_apply_cmds().len() && final(d).issued() == old(d).issued()
                    + new.spec_apply_cmds().take(k) && (new.spec_apply_cmds().len() > 0 ==> 1
                    <= k),
    {
        let before = self.current;
        let _ = new.apply(d);
        self.current = before.and(new);
        before
    }

    /// Leaves a styled scope: restores `before` as the active style —
    /// whatever the scope set in the meantime — and asks the driver to
    /// reset and re-apply it. A driver failure is deliberately ignored.
    pub fn exit<D: Driver>(&mut self, d: &mut D, before: Style)
        ensures
            final(self).current == before,
            exists|k: int|
                1 <= k <= before.spec_revert_cmds().len() && final(d).issued() == old(d).issued()
                    + before.spec_revert_cmds().take(k),
    {
        let _ = before.revert_to(d);
        self.current = before;
    }
}

} // verus!
