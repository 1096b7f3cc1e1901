use vstd::prelude::*;

verus! {

/// A terminal color, or the sentinel `NotSet`.
///
/// `NotSet` means "do not change the current color of this channel"; it is
/// never an override signal when two styles are merged, and applying a style
/// whose color is `NotSet` leaves the terminal's color untouched. All other
/// variants map to a fixed driver-level palette constant; `Custom` carries an
/// arbitrary palette index that is passed through unchanged, without range
/// validation.
#[derive(Debug, Copy, Clone, PartialEq, Eq, Structural)]
pub enum Color {
    NotSet,
    Black,
    Red,
    Green,
    Yellow,
    Blue,
    Magenta,
    Cyan,
    White,
    BrightBlack,
    BrightRed,
    BrightGreen,
    BrightYellow,
    BrightBlue,
    BrightMagenta,
    BrightCyan,
    BrightWhite,
    Custom(u16),
}

impl Color {
    /// The driver-level palette constant for this color: `None` for the
    /// sentinel, the conventional index 0..=15 for the named colors, and the
    /// carried index for `Custom`.
    pub open spec fn spec_term_constant(self) -> Option<u32> {
        match self {
            Color::NotSet => None,
            Color::Black => Some(0u32),
            Color::Red => Some(1u32),
            Color::Green => Some(2u32),
            Color::Yellow => Some(3u32),
            Color::Blue => Some(4u32),
            Color::Magenta => Some(5u32),
            Color::Cyan => Some(6u32),
            Color::White => Some(7u32),
            Color::BrightBlack => Some(8u32),
            Color::BrightRed => Some(9u32),
            Color::BrightGreen => Some(10u32),
            Color::BrightYellow => Some(11u32),
            Color::BrightBlue => Some(12u32),
            Color::BrightMagenta => Some(13u32),
            Color::BrightCyan => Some(14u32),
            Color::BrightWhite => Some(15u32),
            Color::Custom(c) => Some(c as u32),
        }
    }

    /// Returns the driver-level palette constant, or `None` for the sentinel,
    /// meaning: do not touch this color channel.
    pub fn term_constant(&self) -> (r: Option<u32>)
        ensures
            r == self.spec_term_constant(),
    {
        match *self {
            Color::NotSet => None,
            Color::Black => Some(0),
            Color::Red => Some(1),
            Color::Green => Some(2),
            Color::Yellow => Some(3),
            Color::Blue => Some(4),
            Color::Magenta => Some(5),
            Color::Cyan => Some(6),
            Color::White => Some(7),
            Color::BrightBlack => Some(8),
            Color::BrightRed => Some(9),
            Color::BrightGreen => Some(10),
            Color::BrightYellow => Some(11),
            Color::BrightBlue => Some(12),
            Color::BrightMagenta => Some(13),
            Color::BrightCyan => Some(14),
            Color::BrightWhite => Some(15),
            Color::Custom(c) => Some(c as u32),
        }
    }
}

impl Default for Color {
    /// The default color is the sentinel: it changes nothing.
    fn default() -> (c: Self)
        ensures
            c == Color::NotSet,
    {
        Color::NotSet
    }
}

} // verus!
