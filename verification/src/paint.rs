use vstd::prelude::*;
use crate::style::Style;

verus! {

/// Wraps an object of type `T` together with a [`Style`].
///
/// A `Painted` is created by [`crate::ToStyle::paint`] and holds the data
/// needed to print the object in the given style: printing it means entering
/// a scope styled with `style`, printing `obj` exactly as it would print
/// unstyled, and leaving the scope again. The style never changes the
/// printed text itself, only the state-change commands sent alongside it.
pub struct Painted<T> {
    /// The style to print `obj` in.
    pub style: Style,
    /// The wrapped object.
    pub obj: T,
}

} // verus!
