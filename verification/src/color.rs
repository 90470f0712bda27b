use vstd::prelude::*;
use vstd::string::StringSliceAdditionalSpecFns;

use crate::parse::ParseError;

verus! {

/// 32-bit RGBA color.
#[derive(Clone, Copy, Debug, PartialEq, Eq, PartialOrd, Ord, Hash, Default, Structural)]
pub struct Color {
    /// Red component.
    pub r: u8,
    /// Green component.
    pub g: u8,
    /// Blue component.
    pub b: u8,
    /// Alpha component.
    pub a: u8,
}

impl Color {
    /// Creates a new RGB color with 255 alpha.
    pub fn rgb8(r: u8, g: u8, b: u8) -> (c: Self)
        ensures
            c == (Color { r, g, b, a: 255u8 }),
    {
        Color { r, g, b, a: 255 }
    }

    /// Creates a new RGBA color.
    pub fn rgba8(r: u8, g: u8, b: u8, a: u8) -> (c: Self)
        ensures
            c == (Color { r, g, b, a }),
    {
        Color { r, g, b, a }
    }

    /// Parses a color from a string.
    ///
    /// Accepts CSS-style hexadecimal colors of the forms `#RGB`, `#RGBA`,
    /// `#RRGGBB`, `#RRGGBBAA`, or the name of an SVG color such as
    /// `"aliceblue"`.
    pub fn parse(s: &str) -> (r: Result<Self, ParseError>)
        ensures
            r == spec_parse_color(s.spec_bytes()),
    {
        parse_color(s)
    }

    /// Premultiplies the color by the alpha component, rounding each
    /// channel to the nearest value.
    pub fn to_premul(self) -> (r: Self)
        ensures
            r == spec_to_premul(self),
    {
        Color {
            r: premul_channel(self.r, self.a),
            g: premul_channel(self.g, self.a),
            b: premul_channel(self.b, self.a),
            a: self.a,
        }
    }

    /// Un-premultiplies the color by the alpha component, rounding each
    /// channel to the nearest value — exact halves round down — and
    /// saturating at 255; channels of a fully transparent color map to 0
    /// or 255 depending on whether they were zero.
    pub fn to_separate(self) -> (r: Self)
        ensures
            r == spec_to_separate(self),
    {
        Color {
            r: separate_channel(self.r, self.a),
            g: separate_channel(self.g, self.a),
            b: separate_channel(self.b, self.a),
            a: self.a,
        }
    }

    /// Returns the color as a packed premultiplied value, red in the high
    /// byte and alpha in the low byte.
    pub fn to_premul_u32(self) -> (r: u32)
        ensures
            r == spec_to_premul_u32(self),
    {
        let p = self.to_premul();
        ((p.r as u32) << 24) | ((p.g as u32) << 16) | ((p.b as u32) << 8) | (p.a as u32)
    }
}

impl From<[u8; 3]> for Color {
    fn from(rgb: [u8; 3]) -> (c: Self) {
        Color::rgb8(rgb[0], rgb[1], rgb[2])
    }
}

impl vstd::std_specs::convert::FromSpecImpl<[u8; 3]> for Color {
    open spec fn obeys_from_spec() -> bool {
        true
    }

    open spec fn from_spec(rgb: [u8; 3]) -> Self {
        Color { r: rgb[0], g: rgb[1], b: rgb[2], a: 255u8 }
    }
}

impl From<[u8; 4]> for Color {
    fn from(rgba: [u8; 4]) -> (c: Self) {
        Color::rgba8(rgba[0], rgba[1], rgba[2], rgba[3])
    }
}

impl vstd::std_specs::convert::FromSpecImpl<[u8; 4]> for Color {
    open spec fn obeys_from_spec() -> bool {
        true
    }

    open spec fn from_spec(rgba: [u8; 4]) -> Self {
        Color { r: rgba[0], g: rgba[1], b: rgba[2], a: rgba[3] }
    }
}

/// One channel premultiplied by alpha: `round(c * a / 255)`, written over
/// the integers as `floor((2 * c * a + 255) / 510)`.
pub open spec fn spec_premul_channel(c: u8, a: u8) -> u8 {
    ((2 * (c as int) * (a as int) + 255) / 510) as u8
}

/// The color with every channel premultiplied by its alpha.
pub open spec fn spec_to_premul(c: Color) -> Color {
    Color {
        r: spec_premul_channel(c.r, c.a),
        g: spec_premul_channel(c.g, c.a),
        b: spec_premul_channel(c.b, c.a),
        a: c.a,
    }
}

/// One channel un-premultiplied by alpha: `255 * c / a` rounded to the
/// nearest value, exact halves rounding down, saturated at 255; written
/// over the integers as `floor((510 * c + a - 1) / (2 * a))`. For zero
/// alpha, 0 stays 0 and anything else saturates.
pub open spec fn spec_separate_channel(c: u8, a: u8) -> u8 {
    if a == 0 {
        if c == 0 {
            0u8
        } else {
            255u8
        }
    } else {
        let q = (510 * (c as int) + (a as int) - 1) / (2 * (a as int));
        if q > 255 {
            255u8
        } else {
            q as u8
        }
    }
}

/// The color with every channel un-premultiplied by its alpha.
pub open spec fn spec_to_separate(c: Color) -> Color {
    Color {
        r: spec_separate_channel(c.r, c.a),
        g: spec_separate_channel(c.g, c.a),
        b: spec_separate_channel(c.b, c.a),
        a: c.a,
    }
}

/// The premultiplied color packed into a word, red in the high byte and
/// alpha in the low byte.
pub open spec fn spec_to_premul_u32(c: Color) -> u32 {
    let p = spec_to_premul(c);
    ((p.r as u32) << 24) | ((p.g as u32) << 16) | ((p.b as u32) << 8) | (p.a as u32)
}

fn premul_channel(c: u8, a: u8) -> (r: u8)
    ensures
        r == spec_premul_channel(c, a),
{
    proof {
        assert(2 * (c as int) * (a as int) <= 130050) by (nonlinear_arith)
            requires
                c <= 255,
                a <= 255,
        ;
    }
    let num: u32 = 2 * (c as u32) * (a as u32) + 255;
    (num / 510) as u8
}

fn separate_channel(c: u8, a: u8) -> (r: u8)
    ensures
        r == spec_separate_channel(c, a),
{
    if a == 0 {
        if c == 0 {
            0
        } else {
            255
        }
    } else {
        let num: u32 = 510 * (c as u32) + (a as u32) - 1;
        let q: u32 = num / (2 * (a as u32));
        if q > 255 {
            255
        } else {
            q as u8
        }
    }
}

/// Is the byte an ASCII hexadecimal digit?
pub open spec fn spec_is_hex_digit(b: u8) -> bool {
    (48 <= b && b <= 57) || (65 <= b && b <= 70) || (97 <= b && b <= 102)
}

/// The numeric value of an ASCII hexadecimal digit.
pub open spec fn spec_hex_value(b: u8) -> u8 {
    if 48 <= b && b <= 57 {
        (b - 48) as u8
    } else if 65 <= b && b <= 70 {
        (b - 55) as u8
    } else {
        (b - 87) as u8
    }
}

/// The value of an ASCII hexadecimal digit, or the byte itself as the
/// error when it is no such digit.
pub fn hex_from_ascii_byte(b: u8) -> (r: Result<u8, u8>)
    ensures
        r == if spec_is_hex_digit(b) {
            Result::<u8, u8>::Ok(spec_hex_value(b))
        } else {
            Result::<u8, u8>::Err(b)
        },
{
    if 48 <= b && b <= 57 {
        Ok(b - 48)
    } else if 65 <= b && b <= 70 {
        Ok(b - 65 + 10)
    } else if 97 <= b && b <= 102 {
        Ok(b - 97 + 10)
    } else {
        Err(b)
    }
}

/// Expansion of a hex color body into eight half-byte digit characters:
/// three- and four-digit forms have each digit doubled, six- and
/// eight-digit forms are taken as they stand, and a missing alpha pair
/// becomes the digit `f` twice. A single leading `#` is accepted in the
/// four-, five-, seven- and nine-long forms. Any other length is invalid.
pub open spec fn spec_expand_channels(b: Seq<u8>) -> Option<Seq<u8>> {
    if b.len() == 4 && b[0] == 35 {
        Some(seq![b[1], b[1], b[2], b[2], b[3], b[3], 102u8, 102u8])
    } else if b.len() == 3 {
        Some(seq![b[0], b[0], b[1], b[1], b[2], b[2], 102u8, 102u8])
    } else if b.len() == 5 && b[0] == 35 {
        Some(seq![b[1], b[1], b[2], b[2], b[3], b[3], b[4], b[4]])
    } else if b.len() == 4 {
        Some(seq![b[0], b[0], b[1], b[1], b[2], b[2], b[3], b[3]])
    } else if b.len() == 7 && b[0] == 35 {
        Some(seq![b[1], b[2], b[3], b[4], b[5], b[6], 102u8, 102u8])
    } else if b.len() == 6 {
        Some(seq![b[0], b[1], b[2], b[3], b[4], b[5], 102u8, 102u8])
    } else if b.len() == 9 && b[0] == 35 {
        Some(seq![b[1], b[2], b[3], b[4], b[5], b[6], b[7], b[8]])
    } else if b.len() == 8 {
        Some(seq![b[0], b[1], b[2], b[3], b[4], b[5], b[6], b[7]])
    } else {
        None
    }
}

/// In-place conversion of the expanded digit characters to their values,
/// from position `i` on; stops at the first byte that is no hexadecimal
/// digit and reports it together with its position.
pub open spec fn spec_convert_channels(e: Seq<u8>, i: int) -> Result<Seq<u8>, ParseError>
    decreases e.len() - i,
{
    if i < 0 || i >= e.len() {
        Ok(e)
    } else if !spec_is_hex_digit(e[i]) {
        Err(ParseError::InvalidHexDigit { ch: e[i] as char, index: i as usize })
    } else {
        spec_convert_channels(e.update(i, spec_hex_value(e[i])), i + 1)
    }
}

/// The eight 4-bit channel values of a hex color body, or the parse error.
pub open spec fn spec_hex_channels(b: Seq<u8>) -> Result<Seq<u8>, ParseError> {
    match spec_expand_channels(b) {
        Some(e) => spec_convert_channels(e, 0),
        None => Err(ParseError::InvalidLength),
    }
}

/// The channel result with its array read back as a sequence.
pub open spec fn spec_channels_result(r: Result<[u8; 8], ParseError>) -> Result<
    Seq<u8>,
    ParseError,
> {
    match r {
        Ok(a) => Ok(a@),
        Err(e) => Err(e),
    }
}

fn expand_channels(b: &[u8]) -> (r: Result<[u8; 8], ParseError>)
    ensures
        match r {
            Ok(a) => spec_expand_channels(b@) == Some(a@),
            Err(e) => spec_expand_channels(b@) is None && e == ParseError::InvalidLength,
        },
{
    let n: usize = b.len();
    if n == 4 && b[0] == 35 {
        let a: [u8; 8] = [b[1], b[1], b[2], b[2], b[3], b[3], 102, 102];
        proof {
            assert(a@ =~= seq![b@[1], b@[1], b@[2], b@[2], b@[3], b@[3], 102u8, 102u8]);
        }
        Ok(a)
    } else if n == 3 {
        let a: [u8; 8] = [b[0], b[0], b[1], b[1], b[2], b[2], 102, 102];
        proof {
            assert(a@ =~= seq![b@[0], b@[0], b@[1], b@[1], b@[2], b@[2], 102u8, 102u8]);
        }
        Ok(a)
    } else if n == 5 && b[0] == 35 {
        let a: [u8; 8] = [b[1], b[1], b[2], b[2], b[3], b[3], b[4], b[4]];
        proof {
            assert(a@ =~= seq![b@[1], b@[1], b@[2], b@[2], b@[3], b@[3], b@[4], b@[4]]);
        }
        Ok(a)
    } else if n == 4 {
        let a: [u8; 8] = [b[0], b[0], b[1], b[1], b[2], b[2], b[3], b[3]];
        proof {
            assert(a@ =~= seq![b@[0], b@[0], b@[1], b@[1], b@[2], b@[2], b@[3], b@[3]]);
        }
        Ok(a)
    } else if n == 7 && b[0] == 35 {
        let a: [u8; 8] = [b[1], b[2], b[3], b[4], b[5], b[6], 102, 102];
        proof {
            assert(a@ =~= seq![b@[1], b@[2], b@[3], b@[4], b@[5], b@[6], 102u8, 102u8]);
        }
        Ok(a)
    } else if n == 6 {
        let a: [u8; 8] = [b[0], b[1], b[2], b[3], b[4], b[5], 102, 102];
        proof {
            assert(a@ =~= seq![b@[0], b@[1], b@[2], b@[3], b@[4], b@[5], 102u8, 102u8]);
        }
        Ok(a)
    } else if n == 9 && b[0] == 35 {
        let a: [u8; 8] = [b[1], b[2], b[3], b[4], b[5], b[6], b[7], b[8]];
        proof {
            assert(a@ =~= seq![b@[1], b@[2], b@[3], b@[4], b@[5], b@[6], b@[7], b@[8]]);
        }
        Ok(a)
    } else if n == 8 {
        let a: [u8; 8] = [b[0], b[1], b[2], b[3], b[4], b[5], b[6], b[7]];
        proof {
            assert(a@ =~= seq![b@[0], b@[1], b@[2], b@[3], b@[4], b@[5], b@[6], b@[7]]);
        }
        Ok(a)
    } else {
        Err(ParseError::InvalidLength)
    }
}

fn hex_channels_bytes(b: &[u8]) -> (r: Result<[u8; 8], ParseError>)
    ensures
        spec_channels_result(r) == spec_hex_channels(b@),
{
    let mut e: [u8; 8] = match expand_channels(b) {
        Ok(a) => a,
        Err(er) => {
            return Err(er);
        },
    };
    let ghost e0 = e@;
    let mut i: usize = 0;
    while i < 8
        invariant
            0 <= i <= 8,
            spec_expand_channels(b@) == Some(e0),
            spec_convert_channels(e0, 0) == spec_convert_channels(e@, i as int),
        decreases 8 - i,
    {
        match hex_from_ascii_byte(e[i]) {
            Ok(h) => {
                e[i] = h;
            },
            Err(byte) => {
                return Err(ParseError::InvalidHexDigit { ch: byte as char, index: i });
            },
        }
        i += 1;
    }
    Ok(e)
}

/// The color assembled from eight 4-bit channel values.
pub open spec fn spec_color_from_channels(e: Seq<u8>) -> Color {
    Color { r: e[0] << 4 | e[1], g: e[2] << 4 | e[3], b: e[4] << 4 | e[5], a: e[6] << 4 | e[7] }
}

/// The eight 4-bit channel values of a hex color string, expanded and
/// converted as [`spec_hex_channels`] describes.
pub fn get_4bit_hex_channels(hex_str: &str) -> (r: Result<[u8; 8], ParseError>)
    ensures
        spec_channels_result(r) == spec_hex_channels(hex_str.spec_bytes()),
{
    hex_channels_bytes(hex_str.as_bytes())
}

/// The color assembled from eight 4-bit channel values.
pub fn color_from_4bit_hex(components: [u8; 8]) -> (c: Color)
    ensures
        c == spec_color_from_channels(components@),
{
    Color::rgba8(
        components[0] << 4 | components[1],
        components[2] << 4 | components[3],
        components[4] << 4 | components[5],
        components[6] << 4 | components[7],
    )
}

/// Is the byte an ASCII whitespace character?
pub open spec fn spec_is_ascii_whitespace(b: u8) -> bool {
    b == 32 || (9 <= b && b <= 13)
}

/// The byte length of the Unicode whitespace character starting at `i`,
/// or zero when none starts there. The table lists every character with
/// the Unicode whitespace property by its UTF-8 bytes: the ASCII
/// whitespace bytes; next line and no-break space; ogham space mark; the
/// en-quad through hair-space range; line and paragraph separators;
/// narrow no-break space; medium mathematical space; ideographic space.
/// In valid UTF-8 no whitespace pattern can begin inside another
/// character, since none of the lead bytes here can be a continuation
/// byte.
pub open spec fn spec_ws_len_at(s: Seq<u8>, i: int) -> int {
    if i < 0 || i >= s.len() {
        0
    } else if spec_is_ascii_whitespace(s[i]) {
        1
    } else if i + 2 <= s.len() && s[i] == 0xc2 && (s[i + 1] == 0x85 || s[i + 1] == 0xa0) {
        2
    } else if i + 3 <= s.len() && s[i] == 0xe1 && s[i + 1] == 0x9a && s[i + 2] == 0x80 {
        3
    } else if i + 3 <= s.len() && s[i] == 0xe2 && s[i + 1] == 0x80 && ((0x80 <= s[i + 2] && s[i
        + 2] <= 0x8a) || s[i + 2] == 0xa8 || s[i + 2] == 0xa9 || s[i + 2] == 0xaf) {
        3
    } else if i + 3 <= s.len() && s[i] == 0xe2 && s[i + 1] == 0x81 && s[i + 2] == 0x9f {
        3
    } else if i + 3 <= s.len() && s[i] == 0xe3 && s[i + 1] == 0x80 && s[i + 2] == 0x80 {
        3
    } else {
        0
    }
}

/// The byte length of the Unicode whitespace character ending just before
/// `j`, or zero when none ends there; the same table as
/// [`spec_ws_len_at`], matched from the right. In valid UTF-8 a matching
/// suffix is always a whole character, since none of the patterns' first
/// bytes can be a continuation byte.
pub open spec fn spec_ws_len_before(s: Seq<u8>, j: int) -> int {
    if j <= 0 || j > s.len() {
        0
    } else if spec_is_ascii_whitespace(s[j - 1]) {
        1
    } else if j >= 2 && s[j - 2] == 0xc2 && (s[j - 1] == 0x85 || s[j - 1] == 0xa0) {
        2
    } else if j >= 3 && s[j - 3] == 0xe1 && s[j - 2] == 0x9a && s[j - 1] == 0x80 {
        3
    } else if j >= 3 && s[j - 3] == 0xe2 && s[j - 2] == 0x80 && ((0x80 <= s[j - 1] && s[j - 1]
        <= 0x8a) || s[j - 1] == 0xa8 || s[j - 1] == 0xa9 || s[j - 1] == 0xaf) {
        3
    } else if j >= 3 && s[j - 3] == 0xe2 && s[j - 2] == 0x81 && s[j - 1] == 0x9f {
        3
    } else if j >= 3 && s[j - 3] == 0xe3 && s[j - 2] == 0x80 && s[j - 1] == 0x80 {
        3
    } else {
        0
    }
}

/// The first position at or after `i` where no whitespace character
/// starts.
pub open spec fn spec_ws_prefix(s: Seq<u8>, i: int) -> int
    decreases s.len() - i,
{
    if i < 0 || i >= s.len() {
        i
    } else if spec_ws_len_at(s, i) > 0 {
        spec_ws_prefix(s, i + spec_ws_len_at(s, i))
    } else {
        i
    }
}

/// The end of the sequence with trailing whitespace characters before `j`
/// dropped.
pub open spec fn spec_ws_suffix(s: Seq<u8>, j: int) -> int
    decreases j,
{
    if j <= 0 {
        0
    } else if spec_ws_len_before(s, j) > 0 {
        spec_ws_suffix(s, j - spec_ws_len_before(s, j))
    } else {
        j
    }
}

/// The sequence with leading and trailing Unicode whitespace removed.
pub open spec fn spec_trimmed(s: Seq<u8>) -> Seq<u8> {
    let lo = spec_ws_prefix(s, 0);
    let hi = spec_ws_suffix(s, s.len() as int);
    if lo <= hi {
        s.subrange(lo, hi)
    } else {
        Seq::empty()
    }
}

fn ws_len_at(b: &[u8], i: usize) -> (l: usize)
    ensures
        l == spec_ws_len_at(b@, i as int),
        l > 0 ==> i + l <= b@.len(),
{
    if i >= b.len() {
        return 0;
    }
    let c0 = b[i];
    if c0 == 32 || (9 <= c0 && c0 <= 13) {
        1
    } else if b.len() - i >= 2 && c0 == 0xc2 && (b[i + 1] == 0x85 || b[i + 1] == 0xa0) {
        2
    } else if b.len() - i >= 3 && c0 == 0xe1 && b[i + 1] == 0x9a && b[i + 2] == 0x80 {
        3
    } else if b.len() - i >= 3 && c0 == 0xe2 && b[i + 1] == 0x80 && ((0x80 <= b[i + 2] && b[i + 2]
        <= 0x8a) || b[i + 2] == 0xa8 || b[i + 2] == 0xa9 || b[i + 2] == 0xaf) {
        3
    } else if b.len() - i >= 3 && c0 == 0xe2 && b[i + 1] == 0x81 && b[i + 2] == 0x9f {
        3
    } else if b.len() - i >= 3 && c0 == 0xe3 && b[i + 1] == 0x80 && b[i + 2] == 0x80 {
        3
    } else {
        0
    }
}

fn ws_len_before(b: &[u8], j: usize) -> (l: usize)
    ensures
        l == spec_ws_len_before(b@, j as int),
        l <= j,
{
    if j == 0 || j > b.len() {
        return 0;
    }
    let c1 = b[j - 1];
    if c1 == 32 || (9 <= c1 && c1 <= 13) {
        1
    } else if j >= 2 && b[j - 2] == 0xc2 && (c1 == 0x85 || c1 == 0xa0) {
        2
    } else if j >= 3 && b[j - 3] == 0xe1 && b[j - 2] == 0x9a && c1 == 0x80 {
        3
    } else if j >= 3 && b[j - 3] == 0xe2 && b[j - 2] == 0x80 && ((0x80 <= c1 && c1 <= 0x8a) || c1
        == 0xa8 || c1 == 0xa9 || c1 == 0xaf) {
        3
    } else if j >= 3 && b[j - 3] == 0xe2 && b[j - 2] == 0x81 && c1 == 0x9f {
        3
    } else if j >= 3 && b[j - 3] == 0xe3 && b[j - 2] == 0x80 && c1 == 0x80 {
        3
    } else {
        0
    }
}

fn trim_start_index(b: &[u8]) -> (lo: usize)
    ensures
        lo == spec_ws_prefix(b@, 0),
        lo <= b@.len(),
{
    let n: usize = b.len();
    let mut lo: usize = 0;
    while lo < n
        invariant
            0 <= lo <= n,
            n == b@.len(),
            spec_ws_prefix(b@, 0) == spec_ws_prefix(b@, lo as int),
        decreases n - lo,
    {
        let l = ws_len_at(b, lo);
        if l == 0 {
            return lo;
        }
        lo += l;
    }
    lo
}

fn trim_end_index(b: &[u8]) -> (hi: usize)
    ensures
        hi == spec_ws_suffix(b@, b@.len() as int),
        hi <= b@.len(),
{
    let n: usize = b.len();
    let mut hi: usize = n;
    while hi > 0
        invariant
            0 <= hi <= n,
            n == b@.len(),
            spec_ws_suffix(b@, n as int) == spec_ws_suffix(b@, hi as int),
        decreases hi,
    {
        let l = ws_len_before(b, hi);
        if l == 0 {
            return hi;
        }
        hi -= l;
    }
    hi
}

/// The color a string denotes: after trimming Unicode whitespace, a body
/// starting with `#` is read as hexadecimal channels, anything else is
/// looked up among the SVG color names.
pub open spec fn spec_parse_color(s: Seq<u8>) -> Result<Color, ParseError> {
    let t = spec_trimmed(s);
    if t.len() > 0 && t[0] == 35 {
        match spec_hex_channels(t.skip(1)) {
            Ok(e) => Ok(spec_color_from_channels(e)),
            Err(e) => Err(e),
        }
    } else {
        match spec_named_color(t) {
            Some(c) => Ok(c),
            None => Err(ParseError::InvalidColorName),
        }
    }
}

/// Parses a color from a string, as [`spec_parse_color`] describes.
pub fn parse_color(s: &str) -> (r: Result<Color, ParseError>)
    ensures
        r == spec_parse_color(s.spec_bytes()),
{
    let b = s.as_bytes();
    let lo = trim_start_index(b);
    let hi = trim_end_index(b);
    let thi: usize = if lo <= hi {
        hi
    } else {
        lo
    };
    let tr: &[u8] = &b[lo..thi];
    proof {
        assert(tr@ =~= spec_trimmed(b@));
    }
    if tr.len() > 0 && tr[0] == 35 {
        let hx: &[u8] = &tr[1..tr.len()];
        proof {
            assert(hx@ =~= spec_trimmed(b@).skip(1));
        }
        match hex_channels_bytes(hx) {
            Ok(a) => Ok(color_from_4bit_hex(a)),
            Err(e) => Err(e),
        }
    } else {
        match named_color(tr) {
            Some(c) => Ok(c),
            None => Err(ParseError::InvalidColorName),
        }
    }
}

fn name_eq(b: &[u8], lit: &str) -> (r: bool)
    ensures
        r == (b@ == lit.spec_bytes()),
{
    let lb = lit.as_bytes();
    if b.len() != lb.len() {
        return false;
    }
    let mut i: usize = 0;
    while i < b.len()
        invariant
            0 <= i <= b@.len(),
            b@.len() == lb@.len(),
            lb@ == lit.spec_bytes(),
            forall|j: int| 0 <= j < i ==> b@[j] == lb@[j],
        decreases b@.len() - i,
    {
        if b[i] != lb[i] {
            return false;
        }
        i += 1;
    }
    proof {
        assert(b@ =~= lb@);
    }
    true
}

/// Table of named colors, part 1.
pub open spec fn spec_named_color_1(s: Seq<u8>) -> Option<Color> {
    if s == "aliceblue".spec_bytes() {
        Some(Color { r: 240u8, g: 248u8, b: 255u8, a: 255u8 })
    } else if s == "antiquewhite".spec_bytes() {
        Some(Color { r: 250u8, g: 235u8, b: 215u8, a: 255u8 })
    } else if s == "aqua".spec_bytes() {
        Some(Color { r: 0u8, g: 255u8, b: 255u8, a: 255u8 })
    } else if s == "aquamarine".spec_bytes() {
        Some(Color { r: 127u8, g: 255u8, b: 212u8, a: 255u8 })
    } else if s == "azure".spec_bytes() {
        Some(Color { r: 240u8, g: 255u8, b: 255u8, a: 255u8 })
    } else if s == "beige".spec_bytes() {
        Some(Color { r: 245u8, g: 245u8, b: 220u8, a: 255u8 })
    } else if s == "bisque".spec_bytes() {
        Some(Color { r: 255u8, g: 228u8, b: 196u8, a: 255u8 })
    } else if s == "black".spec_bytes() {
        Some(Color { r: 0u8, g: 0u8, b: 0u8, a: 255u8 })
    } else if s == "blanchedalmond".spec_bytes() {
        Some(Color { r: 255u8, g: 235u8, b: 205u8, a: 255u8 })
    } else if s == "blue".spec_bytes() {
        Some(Color { r: 0u8, g: 0u8, b: 255u8, a: 255u8 })
    } else if s == "blueviolet".spec_bytes() {
        Some(Color { r: 138u8, g: 43u8, b: 226u8, a: 255u8 })
    } else if s == "brown".spec_bytes() {
        Some(Color { r: 165u8, g: 42u8, b: 42u8, a: 255u8 })
    } else if s == "burlywood".spec_bytes() {
        Some(Color { r: 222u8, g: 184u8, b: 135u8, a: 255u8 })
    } else if s == "cadetblue".spec_bytes() {
        Some(Color { r: 95u8, g: 158u8, b: 160u8, a: 255u8 })
    } else if s == "chartreuse".spec_bytes() {
        Some(Color { r: 127u8, g: 255u8, b: 0u8, a: 255u8 })
    } else if s == "chocolate".spec_bytes() {
        Some(Color { r: 210u8, g: 105u8, b: 30u8, a: 255u8 })
    } else if s == "coral".spec_bytes() {
        Some(Color { r: 255u8, g: 127u8, b: 80u8, a: 255u8 })
    } else if s == "cornflowerblue".spec_bytes() {
        Some(Color { r: 100u8, g: 149u8, b: 237u8, a: 255u8 })
    } else if s == "cornsilk".spec_bytes() {
        Some(Color { r: 255u8, g: 248u8, b: 220u8, a: 255u8 })
    } else if s == "crimson".spec_bytes() {
        Some(Color { r: 220u8, g: 20u8, b: 60u8, a: 255u8 })
    } else if s == "cyan".spec_bytes() {
        Some(Color { r: 0u8, g: 255u8, b: 255u8, a: 255u8 })
    } else if s == "darkblue".spec_bytes() {
        Some(Color { r: 0u8, g: 0u8, b: 139u8, a: 255u8 })
    } else if s == "darkcyan".spec_bytes() {
        Some(Color { r: 0u8, g: 139u8, b: 139u8, a: 255u8 })
    } else if s == "darkgoldenrod".spec_bytes() {
        Some(Color { r: 184u8, g: 134u8, b: 11u8, a: 255u8 })
    } else {
        None
    }
}

/// Table of named colors, part 2.
pub open spec fn spec_named_color_2(s: Seq<u8>) -> Option<Color> {
    if s == "darkgray".spec_bytes() {
        Some(Color { r: 169u8, g: 169u8, b: 169u8, a: 255u8 })
    } else if s == "darkgreen".spec_bytes() {
        Some(Color { r: 0u8, g: 100u8, b: 0u8, a: 255u8 })
    } else if s == "darkkhaki".spec_bytes() {
        Some(Color { r: 189u8, g: 183u8, b: 107u8, a: 255u8 })
    } else if s == "darkmagenta".spec_bytes() {
        Some(Color { r: 139u8, g: 0u8, b: 139u8, a: 255u8 })
    } else if s == "darkolivegreen".spec_bytes() {
        Some(Color { r: 85u8, g: 107u8, b: 47u8, a: 255u8 })
    } else if s == "darkorange".spec_bytes() {
        Some(Color { r: 255u8, g: 140u8, b: 0u8, a: 255u8 })
    } else if s == "darkorchid".spec_bytes() {
        Some(Color { r: 153u8, g: 50u8, b: 204u8, a: 255u8 })
    } else if s == "darkred".spec_bytes() {
        Some(Color { r: 139u8, g: 0u8, b: 0u8, a: 255u8 })
    } else if s == "darksalmon".spec_bytes() {
        Some(Color { r: 233u8, g: 150u8, b: 122u8, a: 255u8 })
    } else if s == "darkseagreen".spec_bytes() {
        Some(Color { r: 143u8, g: 188u8, b: 143u8, a: 255u8 })
    } else if s == "darkslateblue".spec_bytes() {
        Some(Color { r: 72u8, g: 61u8, b: 139u8, a: 255u8 })
    } else if s == "darkslategray".spec_bytes() {
        Some(Color { r: 47u8, g: 79u8, b: 79u8, a: 255u8 })
    } else if s == "darkturquoise".spec_bytes() {
        Some(Color { r: 0u8, g: 206u8, b: 209u8, a: 255u8 })
    } else if s == "darkviolet".spec_bytes() {
        Some(Color { r: 148u8, g: 0u8, b: 211u8, a: 255u8 })
    } else if s == "deeppink".spec_bytes() {
        Some(Color { r: 255u8, g: 20u8, b: 147u8, a: 255u8 })
    } else if s == "deepskyblue".spec_bytes() {
        Some(Color { r: 0u8, g: 191u8, b: 255u8, a: 255u8 })
    } else if s == "dimgray".spec_bytes() {
        Some(Color { r: 105u8, g: 105u8, b: 105u8, a: 255u8 })
    } else if s == "dodgerblue".spec_bytes() {
        Some(Color { r: 30u8, g: 144u8, b: 255u8, a: 255u8 })
    } else if s == "firebrick".spec_bytes() {
        Some(Color { r: 178u8, g: 34u8, b: 34u8, a: 255u8 })
    } else if s == "floralwhite".spec_bytes() {
        Some(Color { r: 255u8, g: 250u8, b: 240u8, a: 255u8 })
    } else if s == "forestgreen".spec_bytes() {
        Some(Color { r: 34u8, g: 139u8, b: 34u8, a: 255u8 })
    } else if s == "fuchsia".spec_bytes() {
        Some(Color { r: 255u8, g: 0u8, b: 255u8, a: 255u8 })
    } else if s == "gainsboro".spec_bytes() {
        Some(Color { r: 220u8, g: 220u8, b: 220u8, a: 255u8 })
    } else if s == "ghostwhite".spec_bytes() {
        Some(Color { r: 248u8, g: 248u8, b: 255u8, a: 255u8 })
    } else {
        None
    }
}

/// Table of named colors, part 3.
pub open spec fn spec_named_color_3(s: Seq<u8>) -> Option<Color> {
    if s == "gold".spec_bytes() {
        Some(Color { r: 255u8, g: 215u8, b: 0u8, a: 255u8 })
    } else if s == "goldenrod".spec_bytes() {
        Some(Color { r: 218u8, g: 165u8, b: 32u8, a: 255u8 })
    } else if s == "gray".spec_bytes() {
        Some(Color { r: 128u8, g: 128u8, b: 128u8, a: 255u8 })
    } else if s == "green".spec_bytes() {
        Some(Color { r: 0u8, g: 128u8, b: 0u8, a: 255u8 })
    } else if s == "greenyellow".spec_bytes() {
        Some(Color { r: 173u8, g: 255u8, b: 47u8, a: 255u8 })
    } else if s == "honeydew".spec_bytes() {
        Some(Color { r: 240u8, g: 255u8, b: 240u8, a: 255u8 })
    } else if s == "hotpink".spec_bytes() {
        Some(Color { r: 255u8, g: 105u8, b: 180u8, a: 255u8 })
    } else if s == "indianred".spec_bytes() {
        Some(Color { r: 205u8, g: 92u8, b: 92u8, a: 255u8 })
    } else if s == "indigo".spec_bytes() {
        Some(Color { r: 75u8, g: 0u8, b: 130u8, a: 255u8 })
    } else if s == "ivory".spec_bytes() {
        Some(Color { r: 255u8, g: 255u8, b: 240u8, a: 255u8 })
    } else if s == "khaki".spec_bytes() {
        Some(Color { r: 240u8, g: 230u8, b: 140u8, a: 255u8 })
    } else if s == "lavender".spec_bytes() {
        Some(Color { r: 230u8, g: 230u8, b: 250u8, a: 255u8 })
    } else if s == "lavenderblush".spec_bytes() {
        Some(Color { r: 255u8, g: 240u8, b: 245u8, a: 255u8 })
    } else if s == "lawngreen".spec_bytes() {
        Some(Color { r: 124u8, g: 252u8, b: 0u8, a: 255u8 })
    } else if s == "lemonchiffon".spec_bytes() {
        Some(Color { r: 255u8, g: 250u8, b: 205u8, a: 255u8 })
    } else if s == "lightblue".spec_bytes() {
        Some(Color { r: 173u8, g: 216u8, b: 230u8, a: 255u8 })
    } else if s == "lightcoral".spec_bytes() {
        Some(Color { r: 240u8, g: 128u8, b: 128u8, a: 255u8 })
    } else if s == "lightcyan".spec_bytes() {
        Some(Color { r: 224u8, g: 255u8, b: 255u8, a: 255u8 })
    } else if s == "lightgoldenrodyellow".spec_bytes() {
        Some(Color { r: 250u8, g: 250u8, b: 210u8, a: 255u8 })
    } else if s == "lightgray".spec_bytes() {
        Some(Color { r: 211u8, g: 211u8, b: 211u8, a: 255u8 })
    } else if s == "lightgreen".spec_bytes() {
        Some(Color { r: 144u8, g: 238u8, b: 144u8, a: 255u8 })
    } else if s == "lightpink".spec_bytes() {
        Some(Color { r: 255u8, g: 182u8, b: 193u8, a: 255u8 })
    } else if s == "lightsalmon".spec_bytes() {
        Some(Color { r: 255u8, g: 160u8, b: 122u8, a: 255u8 })
    } else if s == "lightseagreen".spec_bytes() {
        Some(Color { r: 32u8, g: 178u8, b: 170u8, a: 255u8 })
    } else {
        None
    }
}

/// Table of named colors, part 4.
pub open spec fn spec_named_color_4(s: Seq<u8>) -> Option<Color> {
    if s == "lightskyblue".spec_bytes() {
        Some(Color { r: 135u8, g: 206u8, b: 250u8, a: 255u8 })
    } else if s == "lightslategray".spec_bytes() {
        Some(Color { r: 119u8, g: 136u8, b: 153u8, a: 255u8 })
    } else if s == "lightsteelblue".spec_bytes() {
        Some(Color { r: 176u8, g: 196u8, b: 222u8, a: 255u8 })
    } else if s == "lightyellow".spec_bytes() {
        Some(Color { r: 255u8, g: 255u8, b: 224u8, a: 255u8 })
    } else if s == "lime".spec_bytes() {
        Some(Color { r: 0u8, g: 255u8, b: 0u8, a: 255u8 })
    } else if s == "limegreen".spec_bytes() {
        Some(Color { r: 50u8, g: 205u8, b: 50u8, a: 255u8 })
    } else if s == "linen".spec_bytes() {
        Some(Color { r: 250u8, g: 240u8, b: 230u8, a: 255u8 })
    } else if s == "magenta".spec_bytes() {
        Some(Color { r: 255u8, g: 0u8, b: 255u8, a: 255u8 })
    } else if s == "maroon".spec_bytes() {
        Some(Color { r: 128u8, g: 0u8, b: 0u8, a: 255u8 })
    } else if s == "mediumaquamarine".spec_bytes() {
        Some(Color { r: 102u8, g: 205u8, b: 170u8, a: 255u8 })
    } else if s == "mediumblue".spec_bytes() {
        Some(Color { r: 0u8, g: 0u8, b: 205u8, a: 255u8 })
    } else if s == "mediumorchid".spec_bytes() {
        Some(Color { r: 186u8, g: 85u8, b: 211u8, a: 255u8 })
    } else if s == "mediumpurple".spec_bytes() {
        Some(Color { r: 147u8, g: 112u8, b: 219u8, a: 255u8 })
    } else if s == "mediumseagreen".spec_bytes() {
        Some(Color { r: 60u8, g: 179u8, b: 113u8, a: 255u8 })
    } else if s == "mediumslateblue".spec_bytes() {
        Some(Color { r: 123u8, g: 104u8, b: 238u8, a: 255u8 })
    } else if s == "mediumspringgreen".spec_bytes() {
        Some(Color { r: 0u8, g: 250u8, b: 154u8, a: 255u8 })
    } else if s == "mediumturquoise".spec_bytes() {
        Some(Color { r: 72u8, g: 209u8, b: 204u8, a: 255u8 })
    } else if s == "mediumvioletred".spec_bytes() {
        Some(Color { r: 199u8, g: 21u8, b: 133u8, a: 255u8 })
    } else if s == "midnightblue".spec_bytes() {
        Some(Color { r: 25u8, g: 25u8, b: 112u8, a: 255u8 })
    } else if s == "mintcream".spec_bytes() {
        Some(Color { r: 245u8, g: 255u8, b: 250u8, a: 255u8 })
    } else if s == "mistyrose".spec_bytes() {
        Some(Color { r: 255u8, g: 228u8, b: 225u8, a: 255u8 })
    } else if s == "moccasin".spec_bytes() {
        Some(Color { r: 255u8, g: 228u8, b: 181u8, a: 255u8 })
    } else if s == "navajowhite".spec_bytes() {
        Some(Color { r: 255u8, g: 222u8, b: 173u8, a: 255u8 })
    } else if s == "navy".spec_bytes() {
        Some(Color { r: 0u8, g: 0u8, b: 128u8, a: 255u8 })
    } else {
        None
    }
}

/// Table of named colors, part 5.
pub open spec fn spec_named_color_5(s: Seq<u8>) -> Option<Color> {
    if s == "oldlace".spec_bytes() {
        Some(Color { r: 253u8, g: 245u8, b: 230u8, a: 255u8 })
    } else if s == "olive".spec_bytes() {
        Some(Color { r: 128u8, g: 128u8, b: 0u8, a: 255u8 })
    } else if s == "olivedrab".spec_bytes() {
        Some(Color { r: 107u8, g: 142u8, b: 35u8, a: 255u8 })
    } else if s == "orange".spec_bytes() {
        Some(Color { r: 255u8, g: 165u8, b: 0u8, a: 255u8 })
    } else if s == "orangered".spec_bytes() {
        Some(Color { r: 255u8, g: 69u8, b: 0u8, a: 255u8 })
    } else if s == "orchid".spec_bytes() {
        Some(Color { r: 218u8, g: 112u8, b: 214u8, a: 255u8 })
    } else if s == "palegoldenrod".spec_bytes() {
        Some(Color { r: 238u8, g: 232u8, b: 170u8, a: 255u8 })
    } else if s == "palegreen".spec_bytes() {
        Some(Color { r: 152u8, g: 251u8, b: 152u8, a: 255u8 })
    } else if s == "paleturquoise".spec_bytes() {
        Some(Color { r: 175u8, g: 238u8, b: 238u8, a: 255u8 })
    } else if s == "palevioletred".spec_bytes() {
        Some(Color { r: 219u8, g: 112u8, b: 147u8, a: 255u8 })
    } else if s == "papayawhip".spec_bytes() {
        Some(Color { r: 255u8, g: 239u8, b: 213u8, a: 255u8 })
    } else if s == "peachpuff".spec_bytes() {
        Some(Color { r: 255u8, g: 218u8, b: 185u8, a: 255u8 })
    } else if s == "peru".spec_bytes() {
        Some(Color { r: 205u8, g: 133u8, b: 63u8, a: 255u8 })
    } else if s == "pink".spec_bytes() {
        Some(Color { r: 255u8, g: 192u8, b: 203u8, a: 255u8 })
    } else if s == "plum".spec_bytes() {
        Some(Color { r: 221u8, g: 160u8, b: 221u8, a: 255u8 })
    } else if s == "powderblue".spec_bytes() {
        Some(Color { r: 176u8, g: 224u8, b: 230u8, a: 255u8 })
    } else if s == "purple".spec_bytes() {
        Some(Color { r: 128u8, g: 0u8, b: 128u8, a: 255u8 })
    } else if s == "rebeccapurple".spec_bytes() {
        Some(Color { r: 102u8, g: 51u8, b: 153u8, a: 255u8 })
    } else if s == "red".spec_bytes() {
        Some(Color { r: 255u8, g: 0u8, b: 0u8, a: 255u8 })
    } else if s == "rosybrown".spec_bytes() {
        Some(Color { r: 188u8, g: 143u8, b: 143u8, a: 255u8 })
    } else if s == "royalblue".spec_bytes() {
        Some(Color { r: 65u8, g: 105u8, b: 225u8, a: 255u8 })
    } else if s == "saddlebrown".spec_bytes() {
        Some(Color { r: 139u8, g: 69u8, b: 19u8, a: 255u8 })
    } else if s == "salmon".spec_bytes() {
        Some(Color { r: 250u8, g: 128u8, b: 114u8, a: 255u8 })
    } else if s == "sandybrown".spec_bytes() {
        Some(Color { r: 244u8, g: 164u8, b: 96u8, a: 255u8 })
    } else {
        None
    }
}

/// Table of named colors, part 6.
pub open spec fn spec_named_color_6(s: Seq<u8>) -> Option<Color> {
    if s == "seagreen".spec_bytes() {
        Some(Color { r: 46u8, g: 139u8, b: 87u8, a: 255u8 })
    } else if s == "seashell".spec_bytes() {
        Some(Color { r: 255u8, g: 245u8, b: 238u8, a: 255u8 })
    } else if s == "sienna".spec_bytes() {
        Some(Color { r: 160u8, g: 82u8, b: 45u8, a: 255u8 })
    } else if s == "silver".spec_bytes() {
        Some(Color { r: 192u8, g: 192u8, b: 192u8, a: 255u8 })
    } else if s == "skyblue".spec_bytes() {
        Some(Color { r: 135u8, g: 206u8, b: 235u8, a: 255u8 })
    } else if s == "slateblue".spec_bytes() {
        Some(Color { r: 106u8, g: 90u8, b: 205u8, a: 255u8 })
    } else if s == "slategray".spec_bytes() {
        Some(Color { r: 112u8, g: 128u8, b: 144u8, a: 255u8 })
    } else if s == "snow".spec_bytes() {
        Some(Color { r: 255u8, g: 250u8, b: 250u8, a: 255u8 })
    } else if s == "springgreen".spec_bytes() {
        Some(Color { r: 0u8, g: 255u8, b: 127u8, a: 255u8 })
    } else if s == "steelblue".spec_bytes() {
        Some(Color { r: 70u8, g: 130u8, b: 180u8, a: 255u8 })
    } else if s == "tan".spec_bytes() {
        Some(Color { r: 210u8, g: 180u8, b: 140u8, a: 255u8 })
    } else if s == "teal".spec_bytes() {
        Some(Color { r: 0u8, g: 128u8, b: 128u8, a: 255u8 })
    } else if s == "thistle".spec_bytes() {
        Some(Color { r: 216u8, g: 191u8, b: 216u8, a: 255u8 })
    } else if s == "tomato".spec_bytes() {
        Some(Color { r: 255u8, g: 99u8, b: 71u8, a: 255u8 })
    } else if s == "transparent".spec_bytes() {
        Some(Color { r: 0u8, g: 0u8, b: 0u8, a: 0u8 })
    } else if s == "turquoise".spec_bytes() {
        Some(Color { r: 64u8, g: 224u8, b: 208u8, a: 255u8 })
    } else if s == "violet".spec_bytes() {
        Some(Color { r: 238u8, g: 130u8, b: 238u8, a: 255u8 })
    } else if s == "wheat".spec_bytes() {
        Some(Color { r: 245u8, g: 222u8, b: 179u8, a: 255u8 })
    } else if s == "white".spec_bytes() {
        Some(Color { r: 255u8, g: 255u8, b: 255u8, a: 255u8 })
    } else if s == "whitesmoke".spec_bytes() {
        Some(Color { r: 245u8, g: 245u8, b: 245u8, a: 255u8 })
    } else if s == "yellow".spec_bytes() {
        Some(Color { r: 255u8, g: 255u8, b: 0u8, a: 255u8 })
    } else if s == "yellowgreen".spec_bytes() {
        Some(Color { r: 154u8, g: 205u8, b: 50u8, a: 255u8 })
    } else {
        None
    }
}

fn named_color_1(s: &[u8]) -> (r: Option<Color>)
    ensures
        r == spec_named_color_1(s@),
{
    if name_eq(s, "aliceblue") {
        Some(Color::rgba8(240, 248, 255, 255))
    } else if name_eq(s, "antiquewhite") {
        Some(Color::rgba8(250, 235, 215, 255))
    } else if name_eq(s, "aqua") {
        Some(Color::rgba8(0, 255, 255, 255))
    } else if name_eq(s, "aquamarine") {
        Some(Color::rgba8(127, 255, 212, 255))
    } else if name_eq(s, "azure") {
        Some(Color::rgba8(240, 255, 255, 255))
    } else if name_eq(s, "beige") {
        Some(Color::rgba8(245, 245, 220, 255))
    } else if name_eq(s, "bisque") {
        Some(Color::rgba8(255, 228, 196, 255))
    } else if name_eq(s, "black") {
        Some(Color::rgba8(0, 0, 0, 255))
    } else if name_eq(s, "blanchedalmond") {
        Some(Color::rgba8(255, 235, 205, 255))
    } else if name_eq(s, "blue") {
        Some(Color::rgba8(0, 0, 255, 255))
    } else if name_eq(s, "blueviolet") {
        Some(Color::rgba8(138, 43, 226, 255))
    } else if name_eq(s, "brown") {
        Some(Color::rgba8(165, 42, 42, 255))
    } else if name_eq(s, "burlywood") {
        Some(Color::rgba8(222, 184, 135, 255))
    } else if name_eq(s, "cadetblue") {
        Some(Color::rgba8(95, 158, 160, 255))
    } else if name_eq(s, "chartreuse") {
        Some(Color::rgba8(127, 255, 0, 255))
    } else if name_eq(s, "chocolate") {
        Some(Color::rgba8(210, 105, 30, 255))
    } else if name_eq(s, "coral") {
        Some(Color::rgba8(255, 127, 80, 255))
    } else if name_eq(s, "cornflowerblue") {
        Some(Color::rgba8(100, 149, 237, 255))
    } else if name_eq(s, "cornsilk") {
        Some(Color::rgba8(255, 248, 220, 255))
    } else if name_eq(s, "crimson") {
        Some(Color::rgba8(220, 20, 60, 255))
    } else if name_eq(s, "cyan") {
        Some(Color::rgba8(0, 255, 255, 255))
    } else if name_eq(s, "darkblue") {
        Some(Color::rgba8(0, 0, 139, 255))
    } else if name_eq(s, "darkcyan") {
        Some(Color::rgba8(0, 139, 139, 255))
    } else if name_eq(s, "darkgoldenrod") {
        Some(Color::rgba8(184, 134, 11, 255))
    } else {
        None
    }
}

fn named_color_2(s: &[u8]) -> (r: Option<Color>)
    ensures
        r == spec_named_color_2(s@),
{
    if name_eq(s, "darkgray") {
        Some(Color::rgba8(169, 169, 169, 255))
    } else if name_eq(s, "darkgreen") {
        Some(Color::rgba8(0, 100, 0, 255))
    } else if name_eq(s, "darkkhaki") {
        Some(Color::rgba8(189, 183, 107, 255))
    } else if name_eq(s, "darkmagenta") {
        Some(Color::rgba8(139, 0, 139, 255))
    } else if name_eq(s, "darkolivegreen") {
        Some(Color::rgba8(85, 107, 47, 255))
    } else if name_eq(s, "darkorange") {
        Some(Color::rgba8(255, 140, 0, 255))
    } else if name_eq(s, "darkorchid") {
        Some(Color::rgba8(153, 50, 204, 255))
    } else if name_eq(s, "darkred") {
        Some(Color::rgba8(139, 0, 0, 255))
    } else if name_eq(s, "darksalmon") {
        Some(Color::rgba8(233, 150, 122, 255))
    } else if name_eq(s, "darkseagreen") {
        Some(Color::rgba8(143, 188, 143, 255))
    } else if name_eq(s, "darkslateblue") {
        Some(Color::rgba8(72, 61, 139, 255))
    } else if name_eq(s, "darkslategray") {
        Some(Color::rgba8(47, 79, 79, 255))
    } else if name_eq(s, "darkturquoise") {
        Some(Color::rgba8(0, 206, 209, 255))
    } else if name_eq(s, "darkviolet") {
        Some(Color::rgba8(148, 0, 211, 255))
    } else if name_eq(s, "deeppink") {
        Some(Color::rgba8(255, 20, 147, 255))
    } else if name_eq(s, "deepskyblue") {
        Some(Color::rgba8(0, 191, 255, 255))
    } else if name_eq(s, "dimgray") {
        Some(Color::rgba8(105, 105, 105, 255))
    } else if name_eq(s, "dodgerblue") {
        Some(Color::rgba8(30, 144, 255, 255))
    } else if name_eq(s, "firebrick") {
        Some(Color::rgba8(178, 34, 34, 255))
    } else if name_eq(s, "floralwhite") {
        Some(Color::rgba8(255, 250, 240, 255))
    } else if name_eq(s, "forestgreen") {
        Some(Color::rgba8(34, 139, 34, 255))
    } else if name_eq(s, "fuchsia") {
        Some(Color::rgba8(255, 0, 255, 255))
    } else if name_eq(s, "gainsboro") {
        Some(Color::rgba8(220, 220, 220, 255))
    } else if name_eq(s, "ghostwhite") {
        Some(Color::rgba8(248, 248, 255, 255))
    } else {
        None
    }
}

fn named_color_3(s: &[u8]) -> (r: Option<Color>)
    ensures
        r == spec_named_color_3(s@),
{
    if name_eq(s, "gold") {
        Some(Color::rgba8(255, 215, 0, 255))
    } else if name_eq(s, "goldenrod") {
        Some(Color::rgba8(218, 165, 32, 255))
    } else if name_eq(s, "gray") {
        Some(Color::rgba8(128, 128, 128, 255))
    } else if name_eq(s, "green") {
        Some(Color::rgba8(0, 128, 0, 255))
    } else if name_eq(s, "greenyellow") {
        Some(Color::rgba8(173, 255, 47, 255))
    } else if name_eq(s, "honeydew") {
        Some(Color::rgba8(240, 255, 240, 255))
    } else if name_eq(s, "hotpink") {
        Some(Color::rgba8(255, 105, 180, 255))
    } else if name_eq(s, "indianred") {
        Some(Color::rgba8(205, 92, 92, 255))
    } else if name_eq(s, "indigo") {
        Some(Color::rgba8(75, 0, 130, 255))
    } else if name_eq(s, "ivory") {
        Some(Color::rgba8(255, 255, 240, 255))
    } else if name_eq(s, "khaki") {
        Some(Color::rgba8(240, 230, 140, 255))
    } else if name_eq(s, "lavender") {
        Some(Color::rgba8(230, 230, 250, 255))
    } else if name_eq(s, "lavenderblush") {
        Some(Color::rgba8(255, 240, 245, 255))
    } else if name_eq(s, "lawngreen") {
        Some(Color::rgba8(124, 252, 0, 255))
    } else if name_eq(s, "lemonchiffon") {
        Some(Color::rgba8(255, 250, 205, 255))
    } else if name_eq(s, "lightblue") {
        Some(Color::rgba8(173, 216, 230, 255))
    } else if name_eq(s, "lightcoral") {
        Some(Color::rgba8(240, 128, 128, 255))
    } else if name_eq(s, "lightcyan") {
        Some(Color::rgba8(224, 255, 255, 255))
    } else if name_eq(s, "lightgoldenrodyellow") {
        Some(Color::rgba8(250, 250, 210, 255))
    } else if name_eq(s, "lightgray") {
        Some(Color::rgba8(211, 211, 211, 255))
    } else if name_eq(s, "lightgreen") {
        Some(Color::rgba8(144, 238, 144, 255))
    } else if name_eq(s, "lightpink") {
        Some(Color::rgba8(255, 182, 193, 255))
    } else if name_eq(s, "lightsalmon") {
        Some(Color::rgba8(255, 160, 122, 255))
    } else if name_eq(s, "lightseagreen") {
        Some(Color::rgba8(32, 178, 170, 255))
    } else {
        None
    }
}

fn named_color_4(s: &[u8]) -> (r: Option<Color>)
    ensures
        r == spec_named_color_4(s@),
{
    if name_eq(s, "lightskyblue") {
        Some(Color::rgba8(135, 206, 250, 255))
    } else if name_eq(s, "lightslategray") {
        Some(Color::rgba8(119, 136, 153, 255))
    } else if name_eq(s, "lightsteelblue") {
        Some(Color::rgba8(176, 196, 222, 255))
    } else if name_eq(s, "lightyellow") {
        Some(Color::rgba8(255, 255, 224, 255))
    } else if name_eq(s, "lime") {
        Some(Color::rgba8(0, 255, 0, 255))
    } else if name_eq(s, "limegreen") {
        Some(Color::rgba8(50, 205, 50, 255))
    } else if name_eq(s, "linen") {
        Some(Color::rgba8(250, 240, 230, 255))
    } else if name_eq(s, "magenta") {
        Some(Color::rgba8(255, 0, 255, 255))
    } else if name_eq(s, "maroon") {
        Some(Color::rgba8(128, 0, 0, 255))
    } else if name_eq(s, "mediumaquamarine") {
        Some(Color::rgba8(102, 205, 170, 255))
    } else if name_eq(s, "mediumblue") {
        Some(Color::rgba8(0, 0, 205, 255))
    } else if name_eq(s, "mediumorchid") {
        Some(Color::rgba8(186, 85, 211, 255))
    } else if name_eq(s, "mediumpurple") {
        Some(Color::rgba8(147, 112, 219, 255))
    } else if name_eq(s, "mediumseagreen") {
        Some(Color::rgba8(60, 179, 113, 255))
    } else if name_eq(s, "mediumslateblue") {
        Some(Color::rgba8(123, 104, 238, 255))
    } else if name_eq(s, "mediumspringgreen") {
        Some(Color::rgba8(0, 250, 154, 255))
    } else if name_eq(s, "mediumturquoise") {
        Some(Color::rgba8(72, 209, 204, 255))
    } else if name_eq(s, "mediumvioletred") {
        Some(Color::rgba8(199, 21, 133, 255))
    } else if name_eq(s, "midnightblue") {
        Some(Color::rgba8(25, 25, 112, 255))
    } else if name_eq(s, "mintcream") {
        Some(Color::rgba8(245, 255, 250, 255))
    } else if name_eq(s, "mistyrose") {
        Some(Color::rgba8(255, 228, 225, 255))
    } else if name_eq(s, "moccasin") {
        Some(Color::rgba8(255, 228, 181, 255))
    } else if name_eq(s, "navajowhite") {
        Some(Color::rgba8(255, 222, 173, 255))
    } else if name_eq(s, "navy") {
        Some(Color::rgba8(0, 0, 128, 255))
    } else {
        None
    }
}

fn named_color_5(s: &[u8]) -> (r: Option<Color>)
    ensures
        r == spec_named_color_5(s@),
{
    if name_eq(s, "oldlace") {
        Some(Color::rgba8(253, 245, 230, 255))
    } else if name_eq(s, "olive") {
        Some(Color::rgba8(128, 128, 0, 255))
    } else if name_eq(s, "olivedrab") {
        Some(Color::rgba8(107, 142, 35, 255))
    } else if name_eq(s, "orange") {
        Some(Color::rgba8(255, 165, 0, 255))
    } else if name_eq(s, "orangered") {
        Some(Color::rgba8(255, 69, 0, 255))
    } else if name_eq(s, "orchid") {
        Some(Color::rgba8(218, 112, 214, 255))
    } else if name_eq(s, "palegoldenrod") {
        Some(Color::rgba8(238, 232, 170, 255))
    } else if name_eq(s, "palegreen") {
        Some(Color::rgba8(152, 251, 152, 255))
    } else if name_eq(s, "paleturquoise") {
        Some(Color::rgba8(175, 238, 238, 255))
    } else if name_eq(s, "palevioletred") {
        Some(Color::rgba8(219, 112, 147, 255))
    } else if name_eq(s, "papayawhip") {
        Some(Color::rgba8(255, 239, 213, 255))
    } else if name_eq(s, "peachpuff") {
        Some(Color::rgba8(255, 218, 185, 255))
    } else if name_eq(s, "peru") {
        Some(Color::rgba8(205, 133, 63, 255))
    } else if name_eq(s, "pink") {
        Some(Color::rgba8(255, 192, 203, 255))
    } else if name_eq(s, "plum") {
        Some(Color::rgba8(221, 160, 221, 255))
    } else if name_eq(s, "powderblue") {
        Some(Color::rgba8(176, 224, 230, 255))
    } else if name_eq(s, "purple") {
        Some(Color::rgba8(128, 0, 128, 255))
    } else if name_eq(s, "rebeccapurple") {
        Some(Color::rgba8(102, 51, 153, 255))
    } else if name_eq(s, "red") {
        Some(Color::rgba8(255, 0, 0, 255))
    } else if name_eq(s, "rosybrown") {
        Some(Color::rgba8(188, 143, 143, 255))
    } else if name_eq(s, "royalblue") {
        Some(Color::rgba8(65, 105, 225, 255))
    } else if name_eq(s, "saddlebrown") {
        Some(Color::rgba8(139, 69, 19, 255))
    } else if name_eq(s, "salmon") {
        Some(Color::rgba8(250, 128, 114, 255))
    } else if name_eq(s, "sandybrown") {
        Some(Color::rgba8(244, 164, 96, 255))
    } else {
        None
    }
}

fn named_color_6(s: &[u8]) -> (r: Option<Color>)
    ensures
        r == spec_named_color_6(s@),
{
    if name_eq(s, "seagreen") {
        Some(Color::rgba8(46, 139, 87, 255))
    } else if name_eq(s, "seashell") {
        Some(Color::rgba8(255, 245, 238, 255))
    } else if name_eq(s, "sienna") {
        Some(Color::rgba8(160, 82, 45, 255))
    } else if name_eq(s, "silver") {
        Some(Color::rgba8(192, 192, 192, 255))
    } else if name_eq(s, "skyblue") {
        Some(Color::rgba8(135, 206, 235, 255))
    } else if name_eq(s, "slateblue") {
        Some(Color::rgba8(106, 90, 205, 255))
    } else if name_eq(s, "slategray") {
        Some(Color::rgba8(112, 128, 144, 255))
    } else if name_eq(s, "snow") {
        Some(Color::rgba8(255, 250, 250, 255))
    } else if name_eq(s, "springgreen") {
        Some(Color::rgba8(0, 255, 127, 255))
    } else if name_eq(s, "steelblue") {
        Some(Color::rgba8(70, 130, 180, 255))
    } else if name_eq(s, "tan") {
        Some(Color::rgba8(210, 180, 140, 255))
    } else if name_eq(s, "teal") {
        Some(Color::rgba8(0, 128, 128, 255))
    } else if name_eq(s, "thistle") {
        Some(Color::rgba8(216, 191, 216, 255))
    } else if name_eq(s, "tomato") {
        Some(Color::rgba8(255, 99, 71, 255))
    } else if name_eq(s, "transparent") {
        Some(Color::rgba8(0, 0, 0, 0))
    } else if name_eq(s, "turquoise") {
        Some(Color::rgba8(64, 224, 208, 255))
    } else if name_eq(s, "violet") {
        Some(Color::rgba8(238, 130, 238, 255))
    } else if name_eq(s, "wheat") {
        Some(Color::rgba8(245, 222, 179, 255))
    } else if name_eq(s, "white") {
        Some(Color::rgba8(255, 255, 255, 255))
    } else if name_eq(s, "whitesmoke") {
        Some(Color::rgba8(245, 245, 245, 255))
    } else if name_eq(s, "yellow") {
        Some(Color::rgba8(255, 255, 0, 255))
    } else if name_eq(s, "yellowgreen") {
        Some(Color::rgba8(154, 205, 50, 255))
    } else {
        None
    }
}

/// The color a (trimmed) name denotes, if any.
pub open spec fn spec_named_color(s: Seq<u8>) -> Option<Color> {
    if spec_named_color_1(s) is Some {
        spec_named_color_1(s)
    } else if spec_named_color_2(s) is Some {
        spec_named_color_2(s)
    } else if spec_named_color_3(s) is Some {
        spec_named_color_3(s)
    } else if spec_named_color_4(s) is Some {
        spec_named_color_4(s)
    } else if spec_named_color_5(s) is Some {
        spec_named_color_5(s)
    } else {
        spec_named_color_6(s)
    }
}

fn named_color(s: &[u8]) -> (r: Option<Color>)
    ensures
        r == spec_named_color(s@),
{
    if let Some(c) = named_color_1(s) {
        Some(c)
    } else if let Some(c) = named_color_2(s) {
        Some(c)
    } else if let Some(c) = named_color_3(s) {
        Some(c)
    } else if let Some(c) = named_color_4(s) {
        Some(c)
    } else if let Some(c) = named_color_5(s) {
        Some(c)
    } else {
        named_color_6(s)
    }
}
} // verus!
