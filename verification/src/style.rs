use vstd::prelude::*;
use crate::color::Color;

verus! {

// A `Style` stores six tri-state attribute flags (unset / explicitly off /
// explicitly on) packed two bits per flag, plus a foreground and a background
// color. The packing follows the convention:
//
//     00 => unset        (the default; a zeroed byte has every flag unset)
//     10 => explicitly off
//     11 => explicitly on
//
// The pattern 01 is never produced; `Style::wf` rules it out, and every
// operation below preserves that.

/// Decodes flag group `pos` (0..=3, counted from the least significant bits)
/// of a packed byte: `None` is unset, `Some(false)` explicitly off,
/// `Some(true)` explicitly on.
pub open spec fn flag_bits_get(bits: u8, pos: u8) -> Option<bool> {
    if (bits >> (pos * 2)) & 3 == 2 {
        Some(false)
    } else if (bits >> (pos * 2)) & 3 == 3 {
        Some(true)
    } else {
        None
    }
}

/// Replaces flag group `pos` of a packed byte with the encoding of `v`,
/// leaving every other bit unchanged.
pub open spec fn flag_bits_set(bits: u8, pos: u8, v: Option<bool>) -> u8 {
    match v {
        None => bits & !(3u8 << (pos * 2)),
        Some(false) => (bits & !(3u8 << (pos * 2))) | (2u8 << (pos * 2)),
        Some(true) => bits | (3u8 << (pos * 2)),
    }
}

/// Flag group `pos` holds one of the three legal encodings (not the unused
/// pattern 01).
pub open spec fn flag_bits_ok(bits: u8, pos: u8) -> bool {
    (bits >> (pos * 2)) & 3 != 1
}

/// The merge of two tri-state flags: an unset second flag has no opinion and
/// keeps the first; anything else in the second flag wins, whether off or on.
pub open spec fn merge_flag(a: Option<bool>, b: Option<bool>) -> Option<bool> {
    if b is None {
        a
    } else {
        b
    }
}

/// The merge of two colors: the sentinel in the second color has no opinion
/// and keeps the first; any other second color wins.
pub open spec fn merge_color(a: Color, b: Color) -> Color {
    if b == Color::NotSet {
        a
    } else {
        b
    }
}

/// An immutable style value: foreground and background color plus six
/// tri-state attribute flags.
///
/// A freshly constructed default `Style` changes nothing when applied: both
/// colors are the sentinel and every flag is unset. Equality is structural,
/// and distinguishes an unset flag from an explicitly-off one.
///
/// The flags are packed two bits each to keep the value small. The first
/// attribute in a field's name uses the most significant bits, the last the
/// least significant.
#[derive(Debug, Copy, Clone, PartialEq, Eq, Structural)]
pub struct Style {
    fg: Color,
    bg: Color,
    bold_dim_underline_blink: u8,
    reverse_secure: u8,
}

impl Style {
    /// The foreground color.
    pub closed spec fn spec_fg(self) -> Color {
        self.fg
    }

    /// The background color.
    pub closed spec fn spec_bg(self) -> Color {
        self.bg
    }

    /// The bold flag.
    pub closed spec fn spec_bold(self) -> Option<bool> {
        flag_bits_get(self.bold_dim_underline_blink, 3)
    }

    /// The dim flag.
    pub closed spec fn spec_dim(self) -> Option<bool> {
        flag_bits_get(self.bold_dim_underline_blink, 2)
    }

    /// The underline flag.
    pub closed spec fn spec_underline(self) -> Option<bool> {
        flag_bits_get(self.bold_dim_underline_blink, 1)
    }

    /// The blink flag.
    pub closed spec fn spec_blink(self) -> Option<bool> {
        flag_bits_get(self.bold_dim_underline_blink, 0)
    }

    /// The reverse flag.
    pub closed spec fn spec_reverse(self) -> Option<bool> {
        flag_bits_get(self.reverse_secure, 3)
    }

    /// The secure flag.
    pub closed spec fn spec_secure(self) -> Option<bool> {
        flag_bits_get(self.reverse_secure, 2)
    }

    /// `self` with the bold flag replaced by `v`.
    pub closed spec fn spec_with_bold(self, v: Option<bool>) -> Style {
        Style { bold_dim_underline_blink: flag_bits_set(self.bold_dim_underline_blink, 3, v), ..self }
    }

    /// `self` with the dim flag replaced by `v`.
    pub closed spec fn spec_with_dim(self, v: Option<bool>) -> Style {
        Style { bold_dim_underline_blink: flag_bits_set(self.bold_dim_underline_blink, 2, v), ..self }
    }

    /// `self` with the underline flag replaced by `v`.
    pub closed spec fn spec_with_underline(self, v: Option<bool>) -> Style {
        Style { bold_dim_underline_blink: flag_bits_set(self.bold_dim_underline_blink, 1, v), ..self }
    }

    /// `self` with the blink flag replaced by `v`.
    pub closed spec fn spec_with_blink(self, v: Option<bool>) -> Style {
        Style { bold_dim_underline_blink: flag_bits_set(self.bold_dim_underline_blink, 0, v), ..self }
    }

    /// `self` with the reverse flag replaced by `v`.
    pub closed spec fn spec_with_reverse(self, v: Option<bool>) -> Style {
        Style { reverse_secure: flag_bits_set(self.reverse_secure, 3, v), ..self }
    }

    /// `self` with the secure flag replaced by `v`.
    pub closed spec fn spec_with_secure(self, v: Option<bool>) -> Style {
        Style { reverse_secure: flag_bits_set(self.reverse_secure, 2, v), ..self }
    }

    /// `self` with the foreground color replaced by `c`.
    pub closed spec fn spec_with_fg(self, c: Color) -> Style {
        Style { fg: c, ..self }
    }

    /// `self` with the background color replaced by `c`.
    pub closed spec fn spec_with_bg(self, c: Color) -> Style {
        Style { bg: c, ..self }
    }

    /// The default style value: sentinel colors, every flag unset.
    pub closed spec fn spec_default() -> Style {
        Style { fg: Color::NotSet, bg: Color::NotSet, bold_dim_underline_blink: 0, reverse_secure: 0 }
    }

    /// Well-formedness of the packed representation: no flag group holds the
    /// unused bit pattern, and the two spare groups stay zero. Everything the
    /// crate's API can build is well formed, and two well-formed styles whose
    /// colors and flags agree are equal ([`lemma_style_eq`]).
    pub closed spec fn wf(self) -> bool {
        &&& flag_bits_ok(self.bold_dim_underline_blink, 0)
        &&& flag_bits_ok(self.bold_dim_underline_blink, 1)
        &&& flag_bits_ok(self.bold_dim_underline_blink, 2)
        &&& flag_bits_ok(self.bold_dim_underline_blink, 3)
        &&& flag_bits_ok(self.reverse_secure, 2)
        &&& flag_bits_ok(self.reverse_secure, 3)
        &&& self.reverse_secure & 0x0f == 0
    }
}

impl Default for Style {
    /// The default style: sentinel colors, every flag unset.
    fn default() -> (s: Style)
        ensures
            s.spec_fg() == Color::NotSet,
            s.spec_bg() == Color::NotSet,
            s.spec_bold() is None,
            s.spec_dim() is None,
            s.spec_underline() is None,
            s.spec_blink() is None,
            s.spec_reverse() is None,
            s.spec_secure() is None,
            s.wf(),
            s == Style::spec_default(),
    {
        proof {
            lemma_default_props();
        }
        Style { fg: Color::NotSet, bg: Color::NotSet, bold_dim_underline_blink: 0, reverse_secure: 0 }
    }
}

/// The facts every flag update enjoys: the targeted group now encodes `v`,
/// the other groups are untouched, legal groups stay legal, and (for the
/// byte holding only two flags) the spare low bits are untouched.
proof fn lemma_flag_bits_set(b: u8, pos: u8, v: Option<bool>)
    requires
        pos < 4,
    ensures
        flag_bits_get(flag_bits_set(b, pos, v), pos) == v,
        forall|q: u8|
            q < 4 && q != pos ==> flag_bits_get(flag_bits_set(b, pos, v), q) == flag_bits_get(b, q),
        forall|q: u8|
            q < 4 && q != pos && flag_bits_ok(b, q) ==> flag_bits_ok(flag_bits_set(b, pos, v), q),
        flag_bits_ok(flag_bits_set(b, pos, v), pos),
        pos >= 2 && b & 0x0f == 0 ==> flag_bits_set(b, pos, v) & 0x0f == 0,
{
    let z = flag_bits_set(b, pos, v);
    match v {
        None => {
            assert((z >> (pos * 2)) & 3 == 0) by (bit_vector)
                requires pos < 4, z == b & !(3u8 << (pos * 2)),
            ;
        },
        Some(false) => {
            assert((z >> (pos * 2)) & 3 == 2) by (bit_vector)
                requires pos < 4, z == (b & !(3u8 << (pos * 2))) | (2u8 << (pos * 2)),
            ;
        },
        Some(true) => {
            assert((z >> (pos * 2)) & 3 == 3) by (bit_vector)
                requires pos < 4, z == b | (3u8 << (pos * 2)),
            ;
        },
    }
    assert(z == b & !(3u8 << (pos * 2)) || z == (b & !(3u8 << (pos * 2))) | (2u8 << (pos * 2))
        || z == b | (3u8 << (pos * 2)));
    assert forall|q: u8| q < 4 && q != pos implies #[trigger] flag_bits_get(z, q)
        == flag_bits_get(b, q) by {
        assert((z >> (q * 2)) & 3 == (b >> (q * 2)) & 3) by (bit_vector)
            requires
                q < 4,
                pos < 4,
                q != pos,
                z == b & !(3u8 << (pos * 2)) || z == (b & !(3u8 << (pos * 2))) | (2u8 << (pos * 2))
                    || z == b | (3u8 << (pos * 2)),
        ;
    }
    assert forall|q: u8| q < 4 && q != pos && flag_bits_ok(b, q) implies #[trigger] flag_bits_ok(
        z,
        q,
    ) by {
        assert((z >> (q * 2)) & 3 == (b >> (q * 2)) & 3) by (bit_vector)
            requires
                q < 4,
                pos < 4,
                q != pos,
                z == b & !(3u8 << (pos * 2)) || z == (b & !(3u8 << (pos * 2))) | (2u8 << (pos * 2))
                    || z == b | (3u8 << (pos * 2)),
        ;
    }
    assert(pos >= 2 && b & 0x0f == 0 ==> z & 0x0f == 0) by (bit_vector)
        requires
            pos < 4,
            z == b & !(3u8 << (pos * 2)) || z == (b & !(3u8 << (pos * 2))) | (2u8 << (pos * 2)) || z
                == b | (3u8 << (pos * 2)),
    ;
}

impl Style {
    /// Reads the foreground color.
    pub fn get_fg(&self) -> (c: Color)
        ensures
            c == self.spec_fg(),
    {
        self.fg
    }

    /// Reads the background color.
    pub fn get_bg(&self) -> (c: Color)
        ensures
            c == self.spec_bg(),
    {
        self.bg
    }

    /// Replaces the foreground color, leaving every other field unchanged.
    pub fn set_fg(&mut self, c: Color)
        ensures
            *final(self) == old(self).spec_with_fg(c),
            final(self).spec_fg() == c,
            final(self).spec_bg() == old(self).spec_bg(),
            final(self).spec_bold() == old(self).spec_bold(),
            final(self).spec_dim() == old(self).spec_dim(),
            final(self).spec_underline() == old(self).spec_underline(),
            final(self).spec_blink() == old(self).spec_blink(),
            final(self).spec_reverse() == old(self).spec_reverse(),
            final(self).spec_secure() == old(self).spec_secure(),
            final(self).wf() == old(self).wf(),
    {
        self.fg = c;
    }

    /// Replaces the background color, leaving every other field unchanged.
    pub fn set_bg(&mut self, c: Color)
        ensures
            *final(self) == old(self).spec_with_bg(c),
            final(self).spec_bg() == c,
            final(self).spec_fg() == old(self).spec_fg(),
            final(self).spec_bold() == old(self).spec_bold(),
            final(self).spec_dim() == old(self).spec_dim(),
            final(self).spec_underline() == old(self).spec_underline(),
            final(self).spec_blink() == old(self).spec_blink(),
            final(self).spec_reverse() == old(self).spec_reverse(),
            final(self).spec_secure() == old(self).spec_secure(),
            final(self).wf() == old(self).wf(),
    {
        self.bg = c;
    }

    /// Reads the bold flag.
    pub fn get_bold(&self) -> (r: Option<bool>)
        ensures
            r == self.spec_bold(),
    {
        match (self.bold_dim_underline_blink >> 6) & 0b11 {
            0b10 => Some(false),
            0b11 => Some(true),
            _ => None,
        }
    }

    /// Replaces the bold flag, leaving every other field unchanged.
    pub fn set_bold(&mut self, v: Option<bool>)
        ensures
            *final(self) == old(self).spec_with_bold(v),
            final(self).spec_bold() == v,
            final(self).spec_dim() == old(self).spec_dim(),
            final(self).spec_underline() == old(self).spec_underline(),
            final(self).spec_blink() == old(self).spec_blink(),
            final(self).spec_reverse() == old(self).spec_reverse(),
            final(self).spec_secure() == old(self).spec_secure(),
            final(self).spec_fg() == old(self).spec_fg(),
            final(self).spec_bg() == old(self).spec_bg(),
            old(self).wf() ==> final(self).wf(),
    {
        proof {
            lemma_flag_bits_set(self.bold_dim_underline_blink, 3, v);
        }
        self.bold_dim_underline_blink = match v {
            None => self.bold_dim_underline_blink & !(0b11u8 << 6),
            Some(false) => (self.bold_dim_underline_blink & !(0b11u8 << 6)) | (0b10u8 << 6),
            Some(true) => self.bold_dim_underline_blink | (0b11u8 << 6),
        };
    }

    /// Reads the dim flag.
    pub fn get_dim(&self) -> (r: Option<bool>)
        ensures
            r == self.spec_dim(),
    {
        match (self.bold_dim_underline_blink >> 4) & 0b11 {
            0b10 => Some(false),
            0b11 => Some(true),
            _ => None,
        }
    }

    /// Replaces the dim flag, leaving every other field unchanged.
    pub fn set_dim(&mut self, v: Option<bool>)
        ensures
            *final(self) == old(self).spec_with_dim(v),
            final(self).spec_dim() == v,
            final(self).spec_bold() == old(self).spec_bold(),
            final(self).spec_underline() == old(self).spec_underline(),
            final(self).spec_blink() == old(self).spec_blink(),
            final(self).spec_reverse() == old(self).spec_reverse(),
            final(self).spec_secure() == old(self).spec_secure(),
            final(self).spec_fg() == old(self).spec_fg(),
            final(self).spec_bg() == old(self).spec_bg(),
            old(self).wf() ==> final(self).wf(),
    {
        proof {
            lemma_flag_bits_set(self.bold_dim_underline_blink, 2, v);
        }
        self.bold_dim_underline_blink = match v {
            None => self.bold_dim_underline_blink & !(0b11u8 << 4),
            Some(false) => (self.bold_dim_underline_blink & !(0b11u8 << 4)) | (0b10u8 << 4),
            Some(true) => self.bold_dim_underline_blink | (0b11u8 << 4),
        };
    }

    /// Reads the underline flag.
    pub fn get_underline(&self) -> (r: Option<bool>)
        ensures
            r == self.spec_underline(),
    {
        match (self.bold_dim_underline_blink >> 2) & 0b11 {
            0b10 => Some(false),
            0b11 => Some(true),
            _ => None,
        }
    }

    /// Replaces the underline flag, leaving every other field unchanged.
    pub fn set_underline(&mut self, v: Option<bool>)
        ensures
            *final(self) == old(self).spec_with_underline(v),
            final(self).spec_underline() == v,
            final(self).spec_bold() == old(self).spec_bold(),
            final(self).spec_dim() == old(self).spec_dim(),
            final(self).spec_blink() == old(self).spec_blink(),
            final(self).spec_reverse() == old(self).spec_reverse(),
            final(self).spec_secure() == old(self).spec_secure(),
            final(self).spec_fg() == old(self).spec_fg(),
            final(self).spec_bg() == old(self).spec_bg(),
            old(self).wf() ==> final(self).wf(),
    {
        proof {
            lemma_flag_bits_set(self.bold_dim_underline_blink, 1, v);
        }
        self.bold_dim_underline_blink = match v {
            None => self.bold_dim_underline_blink & !(0b11u8 << 2),
            Some(false) => (self.bold_dim_underline_blink & !(0b11u8 << 2)) | (0b10u8 << 2),
            Some(true) => self.bold_dim_underline_blink | (0b11u8 << 2),
        };
    }

    /// Reads the blink flag.
    pub fn get_blink(&self) -> (r: Option<bool>)
        ensures
            r == self.spec_blink(),
    {
        match (self.bold_dim_underline_blink >> 0) & 0b11 {
            0b10 => Some(false),
            0b11 => Some(true),
            _ => None,
        }
    }

    /// Replaces the blink flag, leaving every other field unchanged.
    pub fn set_blink(&mut self, v: Option<bool>)
        ensures
            *final(self) == old(self).spec_with_blink(v),
            final(self).spec_blink() == v,
            final(self).spec_bold() == old(self).spec_bold(),
            final(self).spec_dim() == old(self).spec_dim(),
            final(self).spec_underline() == old(self).spec_underline(),
            final(self).spec_reverse() == old(self).spec_reverse(),
            final(self).spec_secure() == old(self).spec_secure(),
            final(self).spec_fg() == old(self).spec_fg(),
            final(self).spec_bg() == old(self).spec_bg(),
            old(self).wf() ==> final(self).wf(),
    {
        proof {
            lemma_flag_bits_set(self.bold_dim_underline_blink, 0, v);
        }
        self.bold_dim_underline_blink = match v {
            None => self.bold_dim_underline_blink & !(0b11u8 << 0),
            Some(false) => (self.bold_dim_underline_blink & !(0b11u8 << 0)) | (0b10u8 << 0),
            Some(true) => self.bold_dim_underline_blink | (0b11u8 << 0),
        };
    }

    /// Reads the reverse flag.
    pub fn get_reverse(&self) -> (r: Option<bool>)
        ensures
            r == self.spec_reverse(),
    {
        match (self.reverse_secure >> 6) & 0b11 {
            0b10 => Some(false),
            0b11 => Some(true),
            _ => None,
        }
    }

    /// Replaces the reverse flag, leaving every other field unchanged.
    pub fn set_reverse(&mut self, v: Option<bool>)
        ensures
            *final(self) == old(self).spec_with_reverse(v),
            final(self).spec_reverse() == v,
            final(self).spec_bold() == old(self).spec_bold(),
            final(self).spec_dim() == old(self).spec_dim(),
            final(self).spec_underline() == old(self).spec_underline(),
            final(self).spec_blink() == old(self).spec_blink(),
            final(self).spec_secure() == old(self).spec_secure(),
            final(self).spec_fg() == old(self).spec_fg(),
            final(self).spec_bg() == old(self).spec_bg(),
            old(self).wf() ==> final(self).wf(),
    {
        proof {
            lemma_flag_bits_set(self.reverse_secure, 3, v);
        }
        self.reverse_secure = match v {
            None => self.reverse_secure & !(0b11u8 << 6),
            Some(false) => (self.reverse_secure & !(0b11u8 << 6)) | (0b10u8 << 6),
            Some(true) => self.reverse_secure | (0b11u8 << 6),
        };
    }

    /// Reads the secure flag.
    pub fn get_secure(&self) -> (r: Option<bool>)
        ensures
            r == self.spec_secure(),
    {
        match (self.reverse_secure >> 4) & 0b11 {
            0b10 => Some(false),
            0b11 => Some(true),
            _ => None,
        }
    }

    /// Replaces the secure flag, leaving every other field unchanged.
    pub fn set_secure(&mut self, v: Option<bool>)
        ensures
            *final(self) == old(self).spec_with_secure(v),
            final(self).spec_secure() == v,
            final(self).spec_bold() == old(self).spec_bold(),
            final(self).spec_dim() == old(self).spec_dim(),
            final(self).spec_underline() == old(self).spec_underline(),
            final(self).spec_blink() == old(self).spec_blink(),
            final(self).spec_reverse() == old(self).spec_reverse(),
            final(self).spec_fg() == old(self).spec_fg(),
            final(self).spec_bg() == old(self).spec_bg(),
            old(self).wf() ==> final(self).wf(),
    {
        proof {
            lemma_flag_bits_set(self.reverse_secure, 2, v);
        }
        self.reverse_secure = match v {
            None => self.reverse_secure & !(0b11u8 << 4),
            Some(false) => (self.reverse_secure & !(0b11u8 << 4)) | (0b10u8 << 4),
            Some(true) => self.reverse_secure | (0b11u8 << 4),
        };
    }
}

/// The packed-byte form of the flag merge: for every group, the second
/// byte's flag wins where it is explicitly set, and the first byte's flag is
/// kept where the second is unset. Each group has a "set" bit (the higher
/// bit) and a value bit; the merged set bit is the OR of the two set bits,
/// and the merged value bit comes from `y` where `y`'s set bit is on, else
/// from `x`.
pub open spec fn merge_bits(x: u8, y: u8) -> u8 {
    ((x | y) & 0b10101010) | ((((y >> 1) & y) | (!(y >> 1) & x)) & 0b01010101)
}

/// What `merge_bits` does to every flag group: it computes `merge_flag`,
/// keeps legal groups legal, and keeps the spare low bits clear.
proof fn lemma_merge_bits(x: u8, y: u8)
    ensures
        forall|q: u8|
            q < 4 ==> #[trigger] flag_bits_get(merge_bits(x, y), q) == merge_flag(
                flag_bits_get(x, q),
                flag_bits_get(y, q),
            ),
        forall|q: u8|
            q < 4 && flag_bits_ok(x, q) && flag_bits_ok(y, q) ==> #[trigger] flag_bits_ok(
                merge_bits(x, y),
                q,
            ),
        x & 0x0f == 0 && y & 0x0f == 0 ==> merge_bits(x, y) & 0x0f == 0,
{
    let z = merge_bits(x, y);
    assert forall|q: u8| q < 4 implies #[trigger] flag_bits_get(z, q) == merge_flag(
        flag_bits_get(x, q),
        flag_bits_get(y, q),
    ) by {
        assert(((y >> (q * 2)) & 3 >= 2 ==> (z >> (q * 2)) & 3 == (y >> (q * 2)) & 3) && ((y >> (
        q * 2)) & 3 < 2 ==> (z >> (q * 2)) & 3 == (x >> (q * 2)) & 3)) by (bit_vector)
            requires
                q < 4,
                z == ((x | y) & 0b10101010) | ((((y >> 1) & y) | (!(y >> 1) & x)) & 0b01010101),
        ;
        assert((y >> (q * 2)) & 3 < 4) by (bit_vector);
    }
    assert forall|q: u8| q < 4 && flag_bits_ok(x, q) && flag_bits_ok(y, q)
        implies #[trigger] flag_bits_ok(z, q) by {
        assert(((y >> (q * 2)) & 3 >= 2 ==> (z >> (q * 2)) & 3 == (y >> (q * 2)) & 3) && ((y >> (
        q * 2)) & 3 < 2 ==> (z >> (q * 2)) & 3 == (x >> (q * 2)) & 3)) by (bit_vector)
            requires
                q < 4,
                z == ((x | y) & 0b10101010) | ((((y >> 1) & y) | (!(y >> 1) & x)) & 0b01010101),
        ;
    }
    assert(x & 0x0f == 0 && y & 0x0f == 0 ==> z & 0x0f == 0) by (bit_vector)
        requires
            z == ((x | y) & 0b10101010) | ((((y >> 1) & y) | (!(y >> 1) & x)) & 0b01010101),
    ;
}

impl Style {
    /// The merge of two styles, `other` overriding `self` field by field:
    /// `other`'s colors win unless they are the sentinel, and `other`'s flags
    /// win unless they are unset.
    pub closed spec fn spec_and(self, other: Style) -> Style {
        Style {
            fg: merge_color(self.fg, other.fg),
            bg: merge_color(self.bg, other.bg),
            bold_dim_underline_blink: merge_bits(
                self.bold_dim_underline_blink,
                other.bold_dim_underline_blink,
            ),
            reverse_secure: merge_bits(self.reverse_secure, other.reverse_secure),
        }
    }

    /// Merges two styles; `o` overrides the values of `self`.
    ///
    /// The sentinel color and an unset flag act as "no opinion" and never
    /// override: `o`'s field wins exactly where it states something, whether
    /// that is a color, an explicit on, or an explicit off.
    pub fn and(&self, o: Style) -> (r: Style)
        ensures
            r == self.spec_and(o),
            r.spec_fg() == merge_color(self.spec_fg(), o.spec_fg()),
            r.spec_bg() == merge_color(self.spec_bg(), o.spec_bg()),
            r.spec_bold() == merge_flag(self.spec_bold(), o.spec_bold()),
            r.spec_dim() == merge_flag(self.spec_dim(), o.spec_dim()),
            r.spec_underline() == merge_flag(self.spec_underline(), o.spec_underline()),
            r.spec_blink() == merge_flag(self.spec_blink(), o.spec_blink()),
            r.spec_reverse() == merge_flag(self.spec_reverse(), o.spec_reverse()),
            r.spec_secure() == merge_flag(self.spec_secure(), o.spec_secure()),
            self.wf() && o.wf() ==> r.wf(),
    {
        // Shorthand for the packed bytes of both styles.
        let ax = self.bold_dim_underline_blink;
        let ay = o.bold_dim_underline_blink;
        let bx = self.reverse_secure;
        let by = o.reverse_secure;

        let az = ((ax | ay) & 0b10101010) | ((((ay >> 1) & ay) | (!(ay >> 1) & ax)) & 0b01010101);
        let bz = ((bx | by) & 0b10101010) | ((((by >> 1) & by) | (!(by >> 1) & bx)) & 0b01010101);
        proof {
            lemma_merge_bits(ax, ay);
            lemma_merge_bits(bx, by);
        }
        Style {
            fg: if o.fg == Color::NotSet {
                self.fg
            } else {
                o.fg
            },
            bg: if o.bg == Color::NotSet {
                self.bg
            } else {
                o.bg
            },
            bold_dim_underline_blink: az,
            reverse_secure: bz,
        }
    }
}

/// Accessor-level description of [`Style::spec_and`], for callers that see a
/// merged style only through that spec function.
pub proof fn lemma_and_props(a: Style, b: Style)
    ensures
        a.spec_and(b).spec_fg() == merge_color(a.spec_fg(), b.spec_fg()),
        a.spec_and(b).spec_bg() == merge_color(a.spec_bg(), b.spec_bg()),
        a.spec_and(b).spec_bold() == merge_flag(a.spec_bold(), b.spec_bold()),
        a.spec_and(b).spec_dim() == merge_flag(a.spec_dim(), b.spec_dim()),
        a.spec_and(b).spec_underline() == merge_flag(a.spec_underline(), b.spec_underline()),
        a.spec_and(b).spec_blink() == merge_flag(a.spec_blink(), b.spec_blink()),
        a.spec_and(b).spec_reverse() == merge_flag(a.spec_reverse(), b.spec_reverse()),
        a.spec_and(b).spec_secure() == merge_flag(a.spec_secure(), b.spec_secure()),
        a.wf() && b.wf() ==> a.spec_and(b).wf(),
{
    lemma_merge_bits(a.bold_dim_underline_blink, b.bold_dim_underline_blink);
    lemma_merge_bits(a.reverse_secure, b.reverse_secure);
}

/// Raw group equality from decoded equality: two legal groups that decode to
/// the same tri-state are the same two bits.
proof fn lemma_group_raw_eq(x: u8, y: u8, q: u8)
    requires
        q < 4,
        flag_bits_ok(x, q),
        flag_bits_ok(y, q),
        flag_bits_get(x, q) == flag_bits_get(y, q),
    ensures
        (x >> (q * 2)) & 3 == (y >> (q * 2)) & 3,
{
    assert((x >> (q * 2)) & 3 < 4 && (y >> (q * 2)) & 3 < 4) by (bit_vector);
}

/// Styles are extensional: two well-formed styles that agree on both colors
/// and all six flags are equal. Together with the well-formedness clauses of
/// the constructing operations, this justifies comparing styles built by
/// different modifier chains with `==`.
pub proof fn lemma_style_eq(a: Style, b: Style)
    requires
        a.wf(),
        b.wf(),
        a.spec_fg() == b.spec_fg(),
        a.spec_bg() == b.spec_bg(),
        a.spec_bold() == b.spec_bold(),
        a.spec_dim() == b.spec_dim(),
        a.spec_underline() == b.spec_underline(),
        a.spec_blink() == b.spec_blink(),
        a.spec_reverse() == b.spec_reverse(),
        a.spec_secure() == b.spec_secure(),
    ensures
        a == b,
{
    let ax = a.bold_dim_underline_blink;
    let bx = b.bold_dim_underline_blink;
    let ay = a.reverse_secure;
    let by = b.reverse_secure;
    lemma_group_raw_eq(ax, bx, 0);
    lemma_group_raw_eq(ax, bx, 1);
    lemma_group_raw_eq(ax, bx, 2);
    lemma_group_raw_eq(ax, bx, 3);
    lemma_group_raw_eq(ay, by, 2);
    lemma_group_raw_eq(ay, by, 3);
    assert(ax == bx) by (bit_vector)
        requires
            (ax >> 0) & 3 == (bx >> 0) & 3,
            (ax >> 2) & 3 == (bx >> 2) & 3,
            (ax >> 4) & 3 == (bx >> 4) & 3,
            (ax >> 6) & 3 == (bx >> 6) & 3,
    ;
    assert(ay == by) by (bit_vector)
        requires
            (ay >> 4) & 3 == (by >> 4) & 3,
            (ay >> 6) & 3 == (by >> 6) & 3,
            ay & 0x0f == 0,
            by & 0x0f == 0,
    ;
}

/// Writing the same flag group twice keeps only the later write.
proof fn lemma_flag_bits_set_set(b: u8, pos: u8, v1: Option<bool>, v2: Option<bool>)
    requires
        pos < 4,
    ensures
        flag_bits_set(flag_bits_set(b, pos, v1), pos, v2) == flag_bits_set(b, pos, v2),
{
    let z1 = flag_bits_set(b, pos, v1);
    match v1 {
        None => {
            assert(z1 & !(3u8 << (pos * 2)) == b & !(3u8 << (pos * 2))) by (bit_vector)
                requires pos < 4, z1 == b & !(3u8 << (pos * 2)),
            ;
        },
        Some(false) => {
            assert(z1 & !(3u8 << (pos * 2)) == b & !(3u8 << (pos * 2))) by (bit_vector)
                requires pos < 4, z1 == (b & !(3u8 << (pos * 2))) | (2u8 << (pos * 2)),
            ;
        },
        Some(true) => {
            assert(z1 & !(3u8 << (pos * 2)) == b & !(3u8 << (pos * 2))) by (bit_vector)
                requires pos < 4, z1 == b | (3u8 << (pos * 2)),
            ;
        },
    }
    match v2 {
        None => {
        },
        Some(false) => {
        },
        Some(true) => {
            assert(z1 | (3u8 << (pos * 2)) == b | (3u8 << (pos * 2))) by (bit_vector)
                requires pos < 4, z1 & !(3u8 << (pos * 2)) == b & !(3u8 << (pos * 2)),
            ;
        },
    }
}

/// Modifiers that target distinct fields commute: replacing a flag and then
/// a color gives the same style, bit for bit, as doing it in the other
/// order, from any starting style. This is what makes the order of a
/// modifier chain irrelevant as long as each field is written once.
pub proof fn lemma_modifier_commute(s: Style, c: Color, v: Option<bool>)
    ensures
        s.spec_with_bold(v).spec_with_fg(c) == s.spec_with_fg(c).spec_with_bold(v),
        s.spec_with_bold(v).spec_with_bg(c) == s.spec_with_bg(c).spec_with_bold(v),
        s.spec_with_underline(v).spec_with_fg(c) == s.spec_with_fg(c).spec_with_underline(v),
        s.spec_with_underline(v).spec_with_bg(c) == s.spec_with_bg(c).spec_with_underline(v),
        s.spec_with_fg(c).spec_with_dim(v) == s.spec_with_dim(v).spec_with_fg(c),
        s.spec_with_fg(c).spec_with_blink(v) == s.spec_with_blink(v).spec_with_fg(c),
        s.spec_with_fg(c).spec_with_reverse(v) == s.spec_with_reverse(v).spec_with_fg(c),
        s.spec_with_fg(c).spec_with_secure(v) == s.spec_with_secure(v).spec_with_fg(c),
        s.spec_with_fg(c).spec_with_bg(c) == s.spec_with_bg(c).spec_with_fg(c),
{
}

/// The later write to a field wins: writing the same color channel or the
/// same flag twice is the same as writing only the second value.
pub proof fn lemma_modifier_override(
    s: Style,
    c1: Color,
    c2: Color,
    v1: Option<bool>,
    v2: Option<bool>,
)
    ensures
        s.spec_with_fg(c1).spec_with_fg(c2) == s.spec_with_fg(c2),
        s.spec_with_bg(c1).spec_with_bg(c2) == s.spec_with_bg(c2),
        s.spec_with_bold(v1).spec_with_bold(v2) == s.spec_with_bold(v2),
        s.spec_with_dim(v1).spec_with_dim(v2) == s.spec_with_dim(v2),
        s.spec_with_underline(v1).spec_with_underline(v2) == s.spec_with_underline(v2),
        s.spec_with_blink(v1).spec_with_blink(v2) == s.spec_with_blink(v2),
        s.spec_with_reverse(v1).spec_with_reverse(v2) == s.spec_with_reverse(v2),
        s.spec_with_secure(v1).spec_with_secure(v2) == s.spec_with_secure(v2),
{
    lemma_flag_bits_set_set(s.bold_dim_underline_blink, 3, v1, v2);
    lemma_flag_bits_set_set(s.bold_dim_underline_blink, 2, v1, v2);
    lemma_flag_bits_set_set(s.bold_dim_underline_blink, 1, v1, v2);
    lemma_flag_bits_set_set(s.bold_dim_underline_blink, 0, v1, v2);
    lemma_flag_bits_set_set(s.reverse_secure, 3, v1, v2);
    lemma_flag_bits_set_set(s.reverse_secure, 2, v1, v2);
}

/// What replacing the bold flag does, seen through the accessors: the
/// bold flag becomes `v`, nothing else moves, and well-formedness is kept.
pub proof fn lemma_with_bold_props(s: Style, v: Option<bool>)
    ensures
        s.spec_with_bold(v).spec_bold() == v,
        s.spec_with_bold(v).spec_dim() == s.spec_dim(),
        s.spec_with_bold(v).spec_underline() == s.spec_underline(),
        s.spec_with_bold(v).spec_blink() == s.spec_blink(),
        s.spec_with_bold(v).spec_reverse() == s.spec_reverse(),
        s.spec_with_bold(v).spec_secure() == s.spec_secure(),
        s.spec_with_bold(v).spec_fg() == s.spec_fg(),
        s.spec_with_bold(v).spec_bg() == s.spec_bg(),
        s.wf() ==> s.spec_with_bold(v).wf(),
{
    lemma_flag_bits_set(s.bold_dim_underline_blink, 3, v);
    lemma_flag_bits_set(s.bold_dim_underline_blink, 2, v);
    lemma_flag_bits_set(s.bold_dim_underline_blink, 1, v);
    lemma_flag_bits_set(s.bold_dim_underline_blink, 0, v);
    lemma_flag_bits_set(s.reverse_secure, 3, v);
    lemma_flag_bits_set(s.reverse_secure, 2, v);
}

/// What replacing the dim flag does, seen through the accessors: the
/// dim flag becomes `v`, nothing else moves, and well-formedness is kept.
pub proof fn lemma_with_dim_props(s: Style, v: Option<bool>)
    ensures
        s.spec_with_dim(v).spec_dim() == v,
        s.spec_with_dim(v).spec_bold() == s.spec_bold(),
        s.spec_with_dim(v).spec_underline() == s.spec_underline(),
        s.spec_with_dim(v).spec_blink() == s.spec_blink(),
        s.spec_with_dim(v).spec_reverse() == s.spec_reverse(),
        s.spec_with_dim(v).spec_secure() == s.spec_secure(),
        s.spec_with_dim(v).spec_fg() == s.spec_fg(),
        s.spec_with_dim(v).spec_bg() == s.spec_bg(),
        s.wf() ==> s.spec_with_dim(v).wf(),
{
    lemma_flag_bits_set(s.bold_dim_underline_blink, 3, v);
    lemma_flag_bits_set(s.bold_dim_underline_blink, 2, v);
    lemma_flag_bits_set(s.bold_dim_underline_blink, 1, v);
    lemma_flag_bits_set(s.bold_dim_underline_blink, 0, v);
    lemma_flag_bits_set(s.reverse_secure, 3, v);
    lemma_flag_bits_set(s.reverse_secure, 2, v);
}

/// What replacing the underline flag does, seen through the accessors: the
/// underline flag becomes `v`, nothing else moves, and well-formedness is kept.
pub proof fn lemma_with_underline_props(s: Style, v: Option<bool>)
    ensures
        s.spec_with_underline(v).spec_underline() == v,
        s.spec_with_underline(v).spec_bold() == s.spec_bold(),
        s.spec_with_underline(v).spec_dim() == s.spec_dim(),
        s.spec_with_underline(v).spec_blink() == s.spec_blink(),
        s.spec_with_underline(v).spec_reverse() == s.spec_reverse(),
        s.spec_with_underline(v).spec_secure() == s.spec_secure(),
        s.spec_with_underline(v).spec_fg() == s.spec_fg(),
        s.spec_with_underline(v).spec_bg() == s.spec_bg(),
        s.wf() ==> s.spec_with_underline(v).wf(),
{
    lemma_flag_bits_set(s.bold_dim_underline_blink, 3, v);
    lemma_flag_bits_set(s.bold_dim_underline_blink, 2, v);
    lemma_flag_bits_set(s.bold_dim_underline_blink, 1, v);
    lemma_flag_bits_set(s.bold_dim_underline_blink, 0, v);
    lemma_flag_bits_set(s.reverse_secure, 3, v);
    lemma_flag_bits_set(s.reverse_secure, 2, v);
}

/// What replacing the blink flag does, seen through the accessors: the
/// blink flag becomes `v`, nothing else moves, and well-formedness is kept.
pub proof fn lemma_with_blink_props(s: Style, v: Option<bool>)
    ensures
        s.spec_with_blink(v).spec_blink() == v,
        s.spec_with_blink(v).spec_bold() == s.spec_bold(),
        s.spec_with_blink(v).spec_dim() == s.spec_dim(),
        s.spec_with_blink(v).spec_underline() == s.spec_underline(),
        s.spec_with_blink(v).spec_reverse() == s.spec_reverse(),
        s.spec_with_blink(v).spec_secure() == s.spec_secure(),
        s.spec_with_blink(v).spec_fg() == s.spec_fg(),
        s.spec_with_blink(v).spec_bg() == s.spec_bg(),
        s.wf() ==> s.spec_with_blink(v).wf(),
{
    lemma_flag_bits_set(s.bold_dim_underline_blink, 3, v);
    lemma_flag_bits_set(s.bold_dim_underline_blink, 2, v);
    lemma_flag_bits_set(s.bold_dim_underline_blink, 1, v);
    lemma_flag_bits_set(s.bold_dim_underline_blink, 0, v);
    lemma_flag_bits_set(s.reverse_secure, 3, v);
    lemma_flag_bits_set(s.reverse_secure, 2, v);
}

/// What replacing the reverse flag does, seen through the accessors: the
/// reverse flag becomes `v`, nothing else moves, and well-formedness is kept.
pub proof fn lemma_with_reverse_props(s: Style, v: Option<bool>)
    ensures
        s.spec_with_reverse(v).spec_reverse() == v,
        s.spec_with_reverse(v).spec_bold() == s.spec_bold(),
        s.spec_with_reverse(v).spec_dim() == s.spec_dim(),
        s.spec_with_reverse(v).spec_underline() == s.spec_underline(),
        s.spec_with_reverse(v).spec_blink() == s.spec_blink(),
        s.spec_with_reverse(v).spec_secure() == s.spec_secure(),
        s.spec_with_reverse(v).spec_fg() == s.spec_fg(),
        s.spec_with_reverse(v).spec_bg() == s.spec_bg(),
        s.wf() ==> s.spec_with_reverse(v).wf(),
{
    lemma_flag_bits_set(s.bold_dim_underline_blink, 3, v);
    lemma_flag_bits_set(s.bold_dim_underline_blink, 2, v);
    lemma_flag_bits_set(s.bold_dim_underline_blink, 1, v);
    lemma_flag_bits_set(s.bold_dim_underline_blink, 0, v);
    lemma_flag_bits_set(s.reverse_secure, 3, v);
    lemma_flag_bits_set(s.reverse_secure, 2, v);
}

/// What replacing the secure flag does, seen through the accessors: the
/// secure flag becomes `v`, nothing else moves, and well-formedness is kept.
pub proof fn lemma_with_secure_props(s: Style, v: Option<bool>)
    ensures
        s.spec_with_secure(v).spec_secure() == v,
        s.spec_with_secure(v).spec_bold() == s.spec_bold(),
        s.spec_with_secure(v).spec_dim() == s.spec_dim(),
        s.spec_with_secure(v).spec_underline() == s.spec_underline(),
        s.spec_with_secure(v).spec_blink() == s.spec_blink(),
        s.spec_with_secure(v).spec_reverse() == s.spec_reverse(),
        s.spec_with_secure(v).spec_fg() == s.spec_fg(),
        s.spec_with_secure(v).spec_bg() == s.spec_bg(),
        s.wf() ==> s.spec_with_secure(v).wf(),
{
    lemma_flag_bits_set(s.bold_dim_underline_blink, 3, v);
    lemma_flag_bits_set(s.bold_dim_underline_blink, 2, v);
    lemma_flag_bits_set(s.bold_dim_underline_blink, 1, v);
    lemma_flag_bits_set(s.bold_dim_underline_blink, 0, v);
    lemma_flag_bits_set(s.reverse_secure, 3, v);
    lemma_flag_bits_set(s.reverse_secure, 2, v);
}

/// What replacing the foreground color does, seen through the
/// accessors: that channel becomes `c`, nothing else moves, and
/// well-formedness is untouched.
pub proof fn lemma_with_fg_props(s: Style, c: Color)
    ensures
        s.spec_with_fg(c).spec_fg() == c,
        s.spec_with_fg(c).spec_bg() == s.spec_bg(),
        s.spec_with_fg(c).spec_bold() == s.spec_bold(),
        s.spec_with_fg(c).spec_dim() == s.spec_dim(),
        s.spec_with_fg(c).spec_underline() == s.spec_underline(),
        s.spec_with_fg(c).spec_blink() == s.spec_blink(),
        s.spec_with_fg(c).spec_reverse() == s.spec_reverse(),
        s.spec_with_fg(c).spec_secure() == s.spec_secure(),
        s.spec_with_fg(c).wf() == s.wf(),
{
}

/// What replacing the background color does, seen through the
/// accessors: that channel becomes `c`, nothing else moves, and
/// well-formedness is untouched.
pub proof fn lemma_with_bg_props(s: Style, c: Color)
    ensures
        s.spec_with_bg(c).spec_bg() == c,
        s.spec_with_bg(c).spec_fg() == s.spec_fg(),
        s.spec_with_bg(c).spec_bold() == s.spec_bold(),
        s.spec_with_bg(c).spec_dim() == s.spec_dim(),
        s.spec_with_bg(c).spec_underline() == s.spec_underline(),
        s.spec_with_bg(c).spec_blink() == s.spec_blink(),
        s.spec_with_bg(c).spec_reverse() == s.spec_reverse(),
        s.spec_with_bg(c).spec_secure() == s.spec_secure(),
        s.spec_with_bg(c).wf() == s.wf(),
{
}

/// The accessor values of the default style: sentinel colors, every flag
/// unset, well formed.
pub proof fn lemma_default_props()
    ensures
        Style::spec_default().spec_fg() == Color::NotSet,
        Style::spec_default().spec_bg() == Color::NotSet,
        Style::spec_default().spec_bold() is None,
        Style::spec_default().spec_dim() is None,
        Style::spec_default().spec_underline() is None,
        Style::spec_default().spec_blink() is None,
        Style::spec_default().spec_reverse() is None,
        Style::spec_default().spec_secure() is None,
        Style::spec_default().wf(),
{
    assert forall|q: u8| q < 4 implies #[trigger] flag_bits_get(0u8, q) is None && flag_bits_ok(
        0u8,
        q,
    ) by {
        assert((0u8 >> (q * 2)) & 3 == 0) by (bit_vector);
    }
    assert(flag_bits_get(0u8, 0u8) is None);
    assert(flag_bits_get(0u8, 1u8) is None);
    assert(flag_bits_get(0u8, 2u8) is None);
    assert(flag_bits_get(0u8, 3u8) is None);
    assert(0u8 & 0x0f == 0) by (bit_vector);
}

} // verus!
