//! Terminal text styling: composable styles (foreground/background color and
//! tri-state text attributes), a merge operator with override semantics, and
//! a scoped apply/revert protocol that keeps nested styled regions correct.
//!
//! The crate is organised around a small set of value types:
//!
//! - [`Color`]: a named terminal color, a sentinel meaning "leave unchanged",
//!   or an arbitrary palette index.
//! - [`Attr`]: a named text attribute, usable as the start of a modifier chain.
//! - [`Style`]: the central value object: both colors plus six tri-state
//!   attribute flags, packed two bits per flag.
//! - [`ToStyle`]: anything that can start a fluent modifier chain.
//! - [`Painted`]: a value bundled with the style it should be printed in.
//!
//! Styling a real terminal is side effecting and cannot be verified, so the
//! crate never talks to a terminal directly: every state change is expressed
//! as a [`DriverCmd`], and an implementation of [`Driver`] (for example a
//! terminal backend, or [`RecordingDriver`] in tests) carries the commands
//! out.

mod attr;
mod color;
mod driver;
mod paint;
mod scope;
mod source;
mod style;

pub use crate::attr::Attr;
pub use crate::color::Color;
pub use crate::driver::{accepted, lemma_default_applies_nothing, Driver, DriverCmd, DriverError, RecordingDriver};
pub use crate::paint::Painted;
pub use crate::scope::StyleContext;
pub use crate::source::{lemma_canonical_construction, ToStyle};
pub use crate::style::{
    flag_bits_get, flag_bits_ok, flag_bits_set, lemma_and_props, lemma_default_props,
    lemma_modifier_commute, lemma_modifier_override, lemma_style_eq, lemma_with_bg_props,
    lemma_with_blink_props, lemma_with_bold_props, lemma_with_dim_props, lemma_with_fg_props,
    lemma_with_reverse_props, lemma_with_secure_props, lemma_with_underline_props, merge_bits,
    merge_color, merge_flag, Style,
};
