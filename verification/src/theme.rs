//! Theme colours: the compositor palette stored as CSS-style hex strings,
//! and the parser that turns such a string into 8-bit RGBA channels.
//!
//! Accepted notation (any number of leading `#` is ignored): `RRGGBB`
//! (alpha 255) and `RRGGBBAA`, each channel two hexadecimal digits of
//! either case. Any other string is invalid and gives opaque black: one
//! of another length, or one with a channel that is not two hexadecimal
//! digits (the bytes of a multi-byte character never are).

use vstd::prelude::*;
use vstd::string::StringExecFns;
use vstd::utf8::encode_utf8;

use crate::text::{ascii_lower_char, lowercase_chars};

verus! {

/// A colour as four 8-bit channels (red, green, blue, alpha).
/// Dividing each channel by 255 gives the `[0, 1]` float components used
/// for rendering.
#[derive(Debug, Clone, Copy, PartialEq, Eq, Structural)]
pub struct Rgba8 {
    pub r: u8,
    pub g: u8,
    pub b: u8,
    pub a: u8,
}

/// Opaque black, the result for an unparseable colour string.
pub open spec fn opaque_black() -> Rgba8 {
    Rgba8 { r: 0, g: 0, b: 0, a: 255 }
}

/// The byte `#`.
pub open spec fn hash_byte() -> u8 {
    0x23
}

/// The bytes left after removing every leading `#`.
pub open spec fn trim_hashes(b: Seq<u8>) -> Seq<u8>
    decreases b.len(),
{
    if b.len() > 0 && b[0] == hash_byte() {
        trim_hashes(b.drop_first())
    } else {
        b
    }
}

/// The value of one ASCII hexadecimal digit (either case).
pub open spec fn hex_digit(c: u8) -> Option<u8> {
    if 0x30 <= c <= 0x39 {
        Some((c - 0x30) as u8)
    } else if 0x61 <= c <= 0x66 {
        Some((c - 0x61 + 10) as u8)
    } else if 0x41 <= c <= 0x46 {
        Some((c - 0x41 + 10) as u8)
    } else {
        None
    }
}

/// The value of two hexadecimal digits.
pub open spec fn hex_pair(hi: u8, lo: u8) -> Option<u8> {
    match (hex_digit(hi), hex_digit(lo)) {
        (Some(h), Some(l)) => Some((h * 16 + l) as u8),
        _ => None,
    }
}

/// The colour denoted by the bytes of a hex string with its `#`s removed:
/// opaque black unless it is six or eight bytes of hexadecimal digit pairs.
pub open spec fn rgba_of_hex_bytes(t: Seq<u8>) -> Rgba8 {
    if t.len() == 6 {
        match (hex_pair(t[0], t[1]), hex_pair(t[2], t[3]), hex_pair(t[4], t[5])) {
            (Some(r), Some(g), Some(b)) => Rgba8 { r, g, b, a: 255 },
            _ => opaque_black(),
        }
    } else if t.len() == 8 {
        match (hex_pair(t[0], t[1]), hex_pair(t[2], t[3]), hex_pair(t[4], t[5]), hex_pair(t[6], t[7])) {
            (Some(r), Some(g), Some(b), Some(a)) => Rgba8 { r, g, b, a },
            _ => opaque_black(),
        }
    } else {
        opaque_black()
    }
}

/// The colour denoted by a hex colour string.
pub open spec fn hex_color(s: Seq<char>) -> Rgba8 {
    rgba_of_hex_bytes(trim_hashes(encode_utf8(s)))
}

/// A leading `#` is optional: prefixing a colour string with `#` does not
/// change the colour it denotes.
pub proof fn law_hash_prefix_optional(s: Seq<char>)
    ensures
        hex_color(seq!['#'] + s) == hex_color(s),
{
    let t = seq!['#'] + s;
    assert(t.drop_first() =~= s);
    assert(t[0] == '#');
    assert(('#' as u32) == 0x23u32);
    assert((0x23u32 & 0x7Fu32) == 0x23u32) by (bit_vector);
    assert(vstd::utf8::encode_scalar(0x23u32) =~= seq![0x23u8]);
    assert(encode_utf8(t) =~= seq![0x23u8] + encode_utf8(s));
    assert((seq![0x23u8] + encode_utf8(s)).drop_first() =~= encode_utf8(s));
}

/// The byte `b` with an ASCII upper-case letter turned to lower case.
pub open spec fn ascii_lower_byte(b: u8) -> u8 {
    if 0x41 <= b <= 0x5A {
        (b + 0x20) as u8
    } else {
        b
    }
}

/// The bytes `t` with their ASCII upper-case letters in lower case.
pub open spec fn lowercase_bytes(t: Seq<u8>) -> Seq<u8> {
    t.map_values(|b: u8| ascii_lower_byte(b))
}

/// The lower-case hexadecimal digit for a value below 16.
pub open spec fn lower_hex_char(d: u8) -> u8 {
    if d < 10 {
        (0x30 + d) as u8
    } else {
        (0x61 + d - 10) as u8
    }
}

/// The upper-case hexadecimal digit for a value below 16.
pub open spec fn upper_hex_char(d: u8) -> u8 {
    if d < 10 {
        (0x30 + d) as u8
    } else {
        (0x41 + d - 10) as u8
    }
}

/// A hexadecimal digit has the same value in either case: `A` to `F` are
/// worth what `a` to `f` are, 10 to 15, and `0` to `9` are worth 0 to 9.
pub proof fn law_hex_digit_either_case(c: u8)
    ensures
        0x30 <= c <= 0x39 ==> hex_digit(c) == Some((c - 0x30) as u8),
        0x61 <= c <= 0x66 ==> hex_digit(c) == Some((c - 0x61 + 10) as u8),
        0x61 <= c <= 0x66 ==> hex_digit((c - 0x20) as u8) == hex_digit(c),
        hex_digit(ascii_lower_byte(c)) == hex_digit(c),
{
}

/// Every byte value is written by two hexadecimal digits, the high one
/// first, in lower or in upper case alike.
pub proof fn law_hex_pair_round_trip(v: u8)
    ensures
        hex_pair(lower_hex_char(v / 16), lower_hex_char(v % 16)) == Some(v),
        hex_pair(upper_hex_char(v / 16), upper_hex_char(v % 16)) == Some(v),
{
    assert((v / 16) * 16 + v % 16 == v);
}

/// The two lower-case hexadecimal digits of a byte value, high one first.
pub open spec fn hex_pair_bytes(v: u8) -> Seq<u8> {
    seq![lower_hex_char(v / 16), lower_hex_char(v % 16)]
}

/// Six digits give red, green and blue in that order with full alpha;
/// eight digits give red, green, blue and alpha; a string of any other
/// length (its leading `#`s removed) is opaque black.
pub proof fn law_hex_channels_in_order(r: u8, g: u8, b: u8, a: u8, t: Seq<u8>)
    ensures
        rgba_of_hex_bytes(hex_pair_bytes(r) + hex_pair_bytes(g) + hex_pair_bytes(b)) == (Rgba8 {
            r,
            g,
            b,
            a: 255,
        }),
        rgba_of_hex_bytes(hex_pair_bytes(r) + hex_pair_bytes(g) + hex_pair_bytes(b) + hex_pair_bytes(a))
            == (Rgba8 { r, g, b, a }),
        t.len() != 6 && t.len() != 8 ==> rgba_of_hex_bytes(t) == opaque_black(),
{
    law_hex_pair_round_trip(r);
    law_hex_pair_round_trip(g);
    law_hex_pair_round_trip(b);
    law_hex_pair_round_trip(a);
    let six = hex_pair_bytes(r) + hex_pair_bytes(g) + hex_pair_bytes(b);
    let eight = six + hex_pair_bytes(a);
    assert(six =~= seq![
        lower_hex_char(r / 16),
        lower_hex_char(r % 16),
        lower_hex_char(g / 16),
        lower_hex_char(g % 16),
        lower_hex_char(b / 16),
        lower_hex_char(b % 16),
    ]);
    assert(eight =~= seq![
        lower_hex_char(r / 16),
        lower_hex_char(r % 16),
        lower_hex_char(g / 16),
        lower_hex_char(g % 16),
        lower_hex_char(b / 16),
        lower_hex_char(b % 16),
        lower_hex_char(a / 16),
        lower_hex_char(a % 16),
    ]);
}

proof fn lemma_hex_bytes_ignore_case(t: Seq<u8>)
    ensures
        rgba_of_hex_bytes(lowercase_bytes(t)) == rgba_of_hex_bytes(t),
{
    assert forall|b: u8| #[trigger] hex_digit(ascii_lower_byte(b)) == hex_digit(b) by {
        law_hex_digit_either_case(b);
    }
    let l = lowercase_bytes(t);
    assert(l.len() == t.len());
    assert(forall|i: int| 0 <= i < t.len() ==> l[i] == ascii_lower_byte(t[i]));
}

proof fn lemma_trim_hashes_lowercase(t: Seq<u8>)
    ensures
        trim_hashes(lowercase_bytes(t)) == lowercase_bytes(trim_hashes(t)),
    decreases t.len(),
{
    if t.len() > 0 {
        assert(lowercase_bytes(t)[0] == ascii_lower_byte(t[0]));
        assert(lowercase_bytes(t).drop_first() =~= lowercase_bytes(t.drop_first()));
        lemma_trim_hashes_lowercase(t.drop_first());
    }
}

proof fn lemma_encode_scalar_lowercase(c: char)
    ensures
        vstd::utf8::encode_scalar(ascii_lower_char(c) as u32) == lowercase_bytes(
            vstd::utf8::encode_scalar(c as u32),
        ),
{
    let v = c as u32;
    let e = vstd::utf8::encode_scalar(v);
    if v <= 0x7F {
        let l = ascii_lower_char(c) as u32;
        assert(l <= 0x7F);
        assert(v & 0x7F == v) by (bit_vector)
            requires
                v <= 0x7F,
        ;
        assert(l & 0x7F == l) by (bit_vector)
            requires
                l <= 0x7F,
        ;
        assert(lowercase_bytes(e) =~= vstd::utf8::encode_scalar(l));
    } else {
        assert(forall|x: u8| #![auto] (0x80u8 | x) >= 0x80u8) by (bit_vector);
        assert(forall|x: u8| #![auto] (0xC0u8 | x) >= 0x80u8) by (bit_vector);
        assert(forall|x: u8| #![auto] (0xE0u8 | x) >= 0x80u8) by (bit_vector);
        assert(forall|x: u8| #![auto] (0xF0u8 | x) >= 0x80u8) by (bit_vector);
        assert(forall|i: int| 0 <= i < e.len() ==> e[i] >= 0x80);
        assert(lowercase_bytes(e) =~= e);
    }
}

proof fn lemma_encode_utf8_lowercase(s: Seq<char>)
    ensures
        encode_utf8(lowercase_chars(s)) == lowercase_bytes(encode_utf8(s)),
    decreases s.len(),
{
    if s.len() > 0 {
        let l = lowercase_chars(s);
        assert(l[0] == ascii_lower_char(s[0]));
        assert(l.drop_first() =~= lowercase_chars(s.drop_first()));
        lemma_encode_utf8_lowercase(s.drop_first());
        lemma_encode_scalar_lowercase(s[0]);
        let a = vstd::utf8::encode_scalar(s[0] as u32);
        let b = encode_utf8(s.drop_first());
        assert(lowercase_bytes(a + b) =~= lowercase_bytes(a) + lowercase_bytes(b));
    }
}

/// Colour strings ignore the case of their letters: a string denotes the
/// same colour as its ASCII lower-case form (so `#FFFFFF` is white, as
/// `#ffffff` is).
pub proof fn law_hex_color_ignores_case(s: Seq<char>)
    ensures
        hex_color(lowercase_chars(s)) == hex_color(s),
{
    lemma_encode_utf8_lowercase(s);
    lemma_trim_hashes_lowercase(encode_utf8(s));
    lemma_hex_bytes_ignore_case(trim_hashes(encode_utf8(s)));
}

fn hex_digit_exec(c: u8) -> (res: Option<u8>)
    ensures
        res == hex_digit(c),
{
    if 0x30 <= c && c <= 0x39 {
        Some(c - 0x30)
    } else if 0x61 <= c && c <= 0x66 {
        Some(c - 0x61 + 10)
    } else if 0x41 <= c && c <= 0x46 {
        Some(c - 0x41 + 10)
    } else {
        None
    }
}

fn hex_pair_exec(hi: u8, lo: u8) -> (res: Option<u8>)
    ensures
        res == hex_pair(hi, lo),
{
    match (hex_digit_exec(hi), hex_digit_exec(lo)) {
        (Some(h), Some(l)) => Some(h * 16 + l),
        _ => None,
    }
}

/// Number of leading `#` bytes.
fn leading_hashes(b: &[u8]) -> (n: usize)
    ensures
        n <= b@.len(),
        trim_hashes(b@) == b@.subrange(n as int, b@.len() as int),
{
    let mut n: usize = 0;
    proof {
        assert(b@.subrange(0, b@.len() as int) =~= b@);
    }
    while n < b.len() && b[n] == 0x23
        invariant
            n <= b@.len(),
            trim_hashes(b@) == trim_hashes(b@.subrange(n as int, b@.len() as int)),
        decreases b@.len() - n,
    {
        proof {
            assert(b@.subrange(n as int, b@.len() as int).drop_first() =~= b@.subrange(
                n + 1,
                b@.len() as int,
            ));
        }
        n = n + 1;
    }
    proof {
        let t = b@.subrange(n as int, b@.len() as int);
        assert(t.len() > 0 ==> t[0] == b@[n as int]);
    }
    n
}

/// Parses a CSS-style hex colour string (see the module documentation);
/// opaque black when the string is invalid.
pub fn hex_to_rgba(hex: &str) -> (res: Rgba8)
    ensures
        res == hex_color(hex@),
{
    let bytes = hex.as_bytes();
    let start = leading_hashes(bytes);
    let len = bytes.len() - start;
    let black = Rgba8 { r: 0, g: 0, b: 0, a: 255 };
    if len == 6 {
        match (
            hex_pair_exec(bytes[start], bytes[start + 1]),
            hex_pair_exec(bytes[start + 2], bytes[start + 3]),
            hex_pair_exec(bytes[start + 4], bytes[start + 5]),
        ) {
            (Some(r), Some(g), Some(b)) => Rgba8 { r, g, b, a: 255 },
            _ => black,
        }
    } else if len == 8 {
        match (
            hex_pair_exec(bytes[start], bytes[start + 1]),
            hex_pair_exec(bytes[start + 2], bytes[start + 3]),
            hex_pair_exec(bytes[start + 4], bytes[start + 5]),
            hex_pair_exec(bytes[start + 6], bytes[start + 7]),
        ) {
            (Some(r), Some(g), Some(b), Some(a)) => Rgba8 { r, g, b, a },
            _ => black,
        }
    } else {
        black
    }
}

/// All compositor UI colours, stored as CSS-style hex strings.
/// The default palette is Catppuccin Mocha.
#[derive(Debug, Clone)]
pub struct ThemeColors {
    /// Primary background (base).
    pub bg_primary: String,
    /// Raised surface / panel background.
    pub bg_surface: String,
    /// Primary text color.
    pub text_primary: String,
    /// Accent color used for focused elements.
    pub accent: String,
    /// Border color for the focused window.
    pub border_active: String,
    /// Border color for unfocused windows.
    pub border_inactive: String,
    /// Shadow color (typically includes alpha).
    pub shadow_color: String,
    /// Title-bar background.
    pub title_bar_bg: String,
    /// Title-bar text color.
    pub title_bar_text: String,
    /// Close button color.
    pub button_close: String,
    /// Maximize button color.
    pub button_maximize: String,
    /// Minimize button color.
    pub button_minimize: String,
}

/// The Catppuccin Mocha palette that a theme starts with.
pub open spec fn is_default_palette(t: ThemeColors) -> bool {
    &&& t.bg_primary@ == "#1e1e2e"@
    &&& t.bg_surface@ == "#313244"@
    &&& t.text_primary@ == "#cdd6f4"@
    &&& t.accent@ == "#89b4fa"@
    &&& t.border_active@ == "#89b4fa"@
    &&& t.border_inactive@ == "#45475a"@
    &&& t.shadow_color@ == "#00000066"@
    &&& t.title_bar_bg@ == "#181825"@
    &&& t.title_bar_text@ == "#cdd6f4"@
    &&& t.button_close@ == "#f38ba8"@
    &&& t.button_maximize@ == "#a6e3a1"@
    &&& t.button_minimize@ == "#f9e2af"@
}

impl Default for ThemeColors {
    fn default() -> (res: Self)
        ensures
            is_default_palette(res),
    {
        ThemeColors {
            bg_primary: String::from_str("#1e1e2e"),
            bg_surface: String::from_str("#313244"),
            text_primary: String::from_str("#cdd6f4"),
            accent: String::from_str("#89b4fa"),
            border_active: String::from_str("#89b4fa"),
            border_inactive: String::from_str("#45475a"),
            shadow_color: String::from_str("#00000066"),
            title_bar_bg: String::from_str("#181825"),
            title_bar_text: String::from_str("#cdd6f4"),
            button_close: String::from_str("#f38ba8"),
            button_maximize: String::from_str("#a6e3a1"),
            button_minimize: String::from_str("#f9e2af"),
        }
    }
}

impl ThemeColors {
    /// Converts a CSS-style hex colour string to RGBA channels; opaque black
    /// when the string is invalid.
    pub fn parse_color(&self, hex: &str) -> (res: Rgba8)
        ensures
            res == hex_color(hex@),
    {
        hex_to_rgba(hex)
    }

    /// Primary background as RGBA channels.
    pub fn bg_primary_rgba(&self) -> (res: Rgba8)
        ensures
            res == hex_color(self.bg_primary@),
    {
        hex_to_rgba(self.bg_primary.as_str())
    }

    /// Surface / panel background as RGBA channels.
    pub fn bg_surface_rgba(&self) -> (res: Rgba8)
        ensures
            res == hex_color(self.bg_surface@),
    {
        hex_to_rgba(self.bg_surface.as_str())
    }

    /// Primary text color as RGBA channels.
    pub fn text_primary_rgba(&self) -> (res: Rgba8)
        ensures
            res == hex_color(self.text_primary@),
    {
        hex_to_rgba(self.text_primary.as_str())
    }

    /// Accent color as RGBA channels.
    pub fn accent_rgba(&self) -> (res: Rgba8)
        ensures
            res == hex_color(self.accent@),
    {
        hex_to_rgba(self.accent.as_str())
    }

    /// Active (focused) border color as RGBA channels.
    pub fn border_active_rgba(&self) -> (res: Rgba8)
        ensures
            res == hex_color(self.border_active@),
    {
        hex_to_rgba(self.border_active.as_str())
    }

    /// Inactive border color as RGBA channels.
    pub fn border_inactive_rgba(&self) -> (res: Rgba8)
        ensures
            res == hex_color(self.border_inactive@),
    {
        hex_to_rgba(self.border_inactive.as_str())
    }

    /// Shadow color as RGBA channels.
    pub fn shadow_color_rgba(&self) -> (res: Rgba8)
        ensures
            res == hex_color(self.shadow_color@),
    {
        hex_to_rgba(self.shadow_color.as_str())
    }

    /// Title-bar background as RGBA channels.
    pub fn title_bar_bg_rgba(&self) -> (res: Rgba8)
        ensures
            res == hex_color(self.title_bar_bg@),
    {
        hex_to_rgba(self.title_bar_bg.as_str())
    }

    /// Title-bar text color as RGBA channels.
    pub fn title_bar_text_rgba(&self) -> (res: Rgba8)
        ensures
            res == hex_color(self.title_bar_text@),
    {
        hex_to_rgba(self.title_bar_text.as_str())
    }

    /// Close-button color as RGBA channels.
    pub fn button_close_rgba(&self) -> (res: Rgba8)
        ensures
            res == hex_color(self.button_close@),
    {
        hex_to_rgba(self.button_close.as_str())
    }

    /// Maximize-button color as RGBA channels.
    pub fn button_maximize_rgba(&self) -> (res: Rgba8)
        ensures
            res == hex_color(self.button_maximize@),
    {
        hex_to_rgba(self.button_maximize.as_str())
    }

    /// Minimize-button color as RGBA channels.
    pub fn button_minimize_rgba(&self) -> (res: Rgba8)
        ensures
            res == hex_color(self.button_minimize@),
    {
        hex_to_rgba(self.button_minimize.as_str())
    }

}

} // verus!
