use vstd::prelude::*;
use crate::attr::Attr;
use crate::color::Color;
use crate::driver::Driver;
use crate::paint::Painted;
use crate::scope::StyleContext;
use crate::style::Style;

verus! {

/// Everything that can be seen as the start of a style: a [`Color`], an
/// [`Attr`], or a [`Style`] itself. Each implementor names a canonical
/// [`Style`]; the provided modifier methods convert to that style and
/// override exactly one field, so chains are built left to right and every
/// link consumes the previous value.
pub trait ToStyle: Sized + Copy {
    /// The canonical style this value stands for.
    spec fn spec_style(self) -> Style;

    /// Converts `self` into its canonical style.
    fn to_style(self) -> (s: Style)
        ensures
            s == self.spec_style(),
    ;

    /// Convenience method for modifying the style before it is returned:
    /// converts `self` to its canonical style, lets `func` update it in
    /// place, and returns the result. Each provided modifier below is one
    /// such single-field update, written out so its contract is exact.
    fn to_mapped_style<F: FnOnce(&mut Style)>(self, func: F) -> (s: Style)
        requires
            forall|st: &mut Style| call_requires(func, (st,)),
        ensures
            exists|st: &mut Style|
                #[trigger] call_ensures(func, (st,), ()) && mut_ref_current(st)
                    == self.spec_style() && s == mut_ref_future(st),
    {
        let mut s = self.to_style();
        func(&mut s);
        s
    }

    /// Sets the foreground (text) color.
    fn fg(self, c: Color) -> (s: Style)
        ensures
            s == self.spec_style().spec_with_fg(c),
    {
        let mut s = self.to_style();
        s.set_fg(c);
        s
    }

    /// Sets the background color.
    fn bg(self, c: Color) -> (s: Style)
        ensures
            s == self.spec_style().spec_with_bg(c),
    {
        let mut s = self.to_style();
        s.set_bg(c);
        s
    }

    /// Makes the text bold.
    fn bold(self) -> (s: Style)
        ensures
            s == self.spec_style().spec_with_bold(Some(true)),
    {
        let mut s = self.to_style();
        s.set_bold(Some(true));
        s
    }

    /// Dim mode.
    fn dim(self) -> (s: Style)
        ensures
            s == self.spec_style().spec_with_dim(Some(true)),
    {
        let mut s = self.to_style();
        s.set_dim(Some(true));
        s
    }

    /// Underlines the text.
    fn underline(self) -> (s: Style)
        ensures
            s == self.spec_style().spec_with_underline(Some(true)),
    {
        let mut s = self.to_style();
        s.set_underline(Some(true));
        s
    }

    /// Removes the underline attribute: the flag becomes explicitly off,
    /// which overrides an explicit on when styles are merged.
    fn not_underline(self) -> (s: Style)
        ensures
            s == self.spec_style().spec_with_underline(Some(false)),
    {
        let mut s = self.to_style();
        s.set_underline(Some(false));
        s
    }

    /// Makes the text blink.
    fn blink(self) -> (s: Style)
        ensures
            s == self.spec_style().spec_with_blink(Some(true)),
    {
        let mut s = self.to_style();
        s.set_blink(Some(true));
        s
    }

    /// Swaps foreground and background.
    fn reverse(self) -> (s: Style)
        ensures
            s == self.spec_style().spec_with_reverse(Some(true)),
    {
        let mut s = self.to_style();
        s.set_reverse(Some(true));
        s
    }

    /// Secure mode: the printed text is hidden.
    fn secure(self) -> (s: Style)
        ensures
            s == self.spec_style().spec_with_secure(Some(true)),
    {
        let mut s = self.to_style();
        s.set_secure(Some(true));
        s
    }

    /// Executes the given function inside a scope styled with `self`:
    /// applies the canonical style, records the merge of the previously
    /// active style with it as active, runs `f`, then restores the previous
    /// style — on the terminal by a reset and re-apply, and in the context
    /// record exactly. Returns whatever `f` returns: styling never changes a
    /// result, and a driver failure is deliberately ignored.
    ///
    /// `f` receives the context and driver back, so nested scopes can be
    /// opened inside it; however deep they nest, each exit restores its own
    /// snapshot, so after this call the context again holds what it held
    /// before the call.
    fn with<D: Driver, R, F: FnOnce(&mut StyleContext, &mut D) -> R>(
        &self,
        ctx: &mut StyleContext,
        d: &mut D,
        f: F,
    ) -> (out: R)
        requires
            forall|c: &mut StyleContext, dd: &mut D| call_requires(f, (c, dd)),
        ensures
            final(ctx).current == old(ctx).current,
            exists|c: &mut StyleContext, dd: &mut D|
                {
                    &&& #[trigger] call_ensures(f, (c, dd), out)
                    &&& mut_ref_current(c).current == old(ctx).current.spec_and(
                        (*self).spec_style(),
                    )
                    &&& exists|k: int|
                        0 <= k <= (*self).spec_style().spec_apply_cmds().len() && mut_ref_current(
                            dd,
                        ).issued() == old(d).issued() + (*self).spec_style().spec_apply_cmds().take(
                            k,
                        ) && ((*self).spec_style().spec_apply_cmds().len() > 0 ==> 1 <= k)
                    &&& exists|k: int|
                        1 <= k <= old(ctx).current.spec_revert_cmds().len() && final(d).issued()
                            == mut_ref_future(dd).issued() + old(
                            ctx,
                        ).current.spec_revert_cmds().take(k)
                },
    {
        let new = self.to_style();
        let before = ctx.enter(d, new);
        let out = f(ctx, d);
        ctx.exit(d, before);
        out
    }

    /// Wraps the style specified in `self` and something of arbitrary type
    /// into a [`Painted`]. Printing the `Painted` later prints the wrapped
    /// value in this style.
    fn paint<T>(&self, obj: T) -> (p: Painted<T>)
        ensures
            p.style == self.spec_style(),
            p.obj == obj,
    {
        Painted { style: self.to_style(), obj }
    }
}

impl ToStyle for Style {
    /// A style stands for itself.
    open spec fn spec_style(self) -> Style {
        self
    }

    fn to_style(self) -> Style {
        self
    }
}

impl ToStyle for Color {
    /// A color stands for the default style with itself as the foreground.
    open spec fn spec_style(self) -> Style {
        Style::spec_default().spec_with_fg(self)
    }

    fn to_style(self) -> Style {
        let mut s = Style::default();
        s.set_fg(self);
        s
    }
}

impl ToStyle for Attr {
    /// An attribute stands for the default style with itself turned
    /// explicitly on; `Plain` stands for the default style unchanged.
    open spec fn spec_style(self) -> Style {
        match self {
            Attr::Plain => Style::spec_default(),
            Attr::Bold => Style::spec_default().spec_with_bold(Some(true)),
            Attr::Dim => Style::spec_default().spec_with_dim(Some(true)),
            Attr::Underline => Style::spec_default().spec_with_underline(Some(true)),
            Attr::Blink => Style::spec_default().spec_with_blink(Some(true)),
            Attr::Reverse => Style::spec_default().spec_with_reverse(Some(true)),
            Attr::Secure => Style::spec_default().spec_with_secure(Some(true)),
        }
    }

    fn to_style(self) -> Style {
        let mut s = Style::default();
        match self {
            Attr::Plain => (),
            Attr::Bold => s.set_bold(Some(true)),
            Attr::Dim => s.set_dim(Some(true)),
            Attr::Underline => s.set_underline(Some(true)),
            Attr::Blink => s.set_blink(Some(true)),
            Attr::Reverse => s.set_reverse(Some(true)),
            Attr::Secure => s.set_secure(Some(true)),
        }
        s
    }
}

/// Canonical construction: a chain started from a color or an attribute is
/// exactly the chain started from the plain style with the one corresponding
/// modifier applied.
pub proof fn lemma_canonical_construction(c: Color)
    ensures
        c.spec_style() == Attr::Plain.spec_style().spec_with_fg(c),
        Attr::Bold.spec_style() == Attr::Plain.spec_style().spec_with_bold(Some(true)),
        Attr::Dim.spec_style() == Attr::Plain.spec_style().spec_with_dim(Some(true)),
        Attr::Underline.spec_style() == Attr::Plain.spec_style().spec_with_underline(Some(true)),
        Attr::Blink.spec_style() == Attr::Plain.spec_style().spec_with_blink(Some(true)),
        Attr::Reverse.spec_style() == Attr::Plain.spec_style().spec_with_reverse(Some(true)),
        Attr::Secure.spec_style() == Attr::Plain.spec_style().spec_with_secure(Some(true)),
{
}

} // verus!
