use vstd::prelude::*;

verus! {

/// A named text attribute, usable as the start of a fluent modifier chain.
///
/// `Plain` stands for the default style and modifies nothing; every other
/// variant stands for the default style with exactly that attribute turned
/// explicitly on.
#[derive(Debug, Copy, Clone, PartialEq, Eq, Structural)]
pub enum Attr {
    /// Just the default style.
    Plain,
    Bold,
    Dim,
    Underline,
    Blink,
    Reverse,
    Secure,
}

} // verus!
