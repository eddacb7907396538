//! The color value and its conversions, scaling, interpolation and parsing.

use vstd::prelude::*;
use vstd::string::StringSliceAdditionalSpecFns;

use crate::float32::{
    ONE_BITS, add_bits, div_bits, f32_add, f32_div, f32_eq_bits, f32_mul, f32_sub, from_u64_bits,
    is_finite_bits, is_nan_bits, is_zero_bits, mul_bits, sub_bits, u64_to_f32,
};

verus! {

/// Color with a 32-bit channel word per component.
///
/// Each word is the bit pattern of an IEEE 754 binary32 value. The encoded
/// numbers are linear-light red, green and blue and an un-premultiplied
/// alpha, nominally in zero to one but never clamped. Equality and hashing
/// are over the bit patterns, so distinct NaN encodings and the two zeros
/// are told apart; that is deliberate, since colors serve as cache keys.
#[derive(Clone, Copy, PartialEq, Eq, Hash, Debug, Structural)]
pub struct Color {
    /// Red component, linear.
    pub red: u32,
    /// Green component, linear.
    pub green: u32,
    /// Blue component, linear.
    pub blue: u32,
    /// Alpha component.
    pub alpha: u32,
}

/// Linear value of a gamma-encoded 8-bit channel, as binary32 bits.
pub uninterp spec fn srgb8_linear_bits(c: u8) -> u32;

/// Relies on fast_srgb8::srgb8_to_f32: a 256-entry table of the sRGB
/// transfer function, increasing from zero at entry 0 to one at entry 255.
#[verifier::external_body]
fn srgb8_linear(c: u8) -> (r: u32)
    ensures
        r == srgb8_linear_bits(c),
        r <= ONE_BITS,
        c == 0 ==> r == 0,
        c == 255 ==> r == ONE_BITS,
        forall|d: u8| d <= c ==> srgb8_linear_bits(d) <= r,
        forall|d: u8| c <= d ==> r <= srgb8_linear_bits(d),
{
    fast_srgb8::srgb8_to_f32(c).to_bits()
}

/// The color an 8-bit sRGB triple decodes to, with an opaque alpha.
pub open spec fn rgb8_spec(r: u8, g: u8, b: u8) -> Color {
    Color {
        red: srgb8_linear_bits(r),
        green: srgb8_linear_bits(g),
        blue: srgb8_linear_bits(b),
        alpha: ONE_BITS,
    }
}

/// The fraction an 8-bit alpha scales to: the byte over 255.
pub open spec fn alpha8_bits(a: u8) -> u32 {
    div_bits(from_u64_bits(a as u64), from_u64_bits(255))
}

/// The color an 8-bit sRGB quadruple decodes to.
pub open spec fn rgba8_spec(r: u8, g: u8, b: u8, a: u8) -> Color {
    Color { alpha: alpha8_bits(a), ..rgb8_spec(r, g, b) }
}

/// Channel-wise interpolation word: `a * (1 - t) + b * t`.
pub open spec fn lerp_bits(a: u32, b: u32, t: u32) -> u32 {
    add_bits(mul_bits(a, sub_bits(ONE_BITS, t)), mul_bits(b, t))
}

/// True when no channel word of the color encodes a NaN.
pub open spec fn color_non_nan(c: Color) -> bool {
    &&& !is_nan_bits(c.red)
    &&& !is_nan_bits(c.green)
    &&& !is_nan_bits(c.blue)
    &&& !is_nan_bits(c.alpha)
}

/// True when every channel word of the color encodes a finite number.
pub open spec fn color_finite(c: Color) -> bool {
    &&& is_finite_bits(c.red)
    &&& is_finite_bits(c.green)
    &&& is_finite_bits(c.blue)
    &&& is_finite_bits(c.alpha)
}

/// Channel-wise equality of the encoded numbers, NaN equal to nothing.
pub open spec fn color_f32_eq(a: Color, b: Color) -> bool {
    &&& f32_eq_bits(a.red, b.red)
    &&& f32_eq_bits(a.green, b.green)
    &&& f32_eq_bits(a.blue, b.blue)
    &&& f32_eq_bits(a.alpha, b.alpha)
}

impl Color {
    /// Converts a color from sRGB with nonlinear transfer function.
    ///
    /// The decoded channels do not descend when a channel byte grows, and
    /// they stay within zero to one.
    pub fn rgb8(r: u8, g: u8, b: u8) -> (c: Self)
        ensures
            c == rgb8_spec(r, g, b),
            c.red <= ONE_BITS && c.green <= ONE_BITS && c.blue <= ONE_BITS,
            r == 0 ==> c.red == 0,
            g == 0 ==> c.green == 0,
            b == 0 ==> c.blue == 0,
            r == 255 ==> c.red == ONE_BITS,
            g == 255 ==> c.green == ONE_BITS,
            b == 255 ==> c.blue == ONE_BITS,
            forall|d: u8| d <= r ==> srgb8_linear_bits(d) <= c.red,
            forall|d: u8| r <= d ==> c.red <= srgb8_linear_bits(d),
            forall|d: u8| d <= g ==> srgb8_linear_bits(d) <= c.green,
            forall|d: u8| g <= d ==> c.green <= srgb8_linear_bits(d),
            forall|d: u8| d <= b ==> srgb8_linear_bits(d) <= c.blue,
            forall|d: u8| b <= d ==> c.blue <= srgb8_linear_bits(d),
    {
        Color {
            red: srgb8_linear(r),
            green: srgb8_linear(g),
            blue: srgb8_linear(b),
            alpha: ONE_BITS,
        }
    }

    /// Converts a color from sRGBA with nonlinear transfer function; the
    /// alpha byte scales linearly, never through the transfer function.
    pub fn rgba8(r: u8, g: u8, b: u8, a: u8) -> (c: Self)
        ensures
            c == rgba8_spec(r, g, b, a),
            a == 255 ==> c.alpha == ONE_BITS,
            a == 0 ==> c.alpha == 0,
    {
        let base = Self::rgb8(r, g, b);
        let num = u64_to_f32(a as u64);
        let den = u64_to_f32(255);
        Color { alpha: f32_div(num, den), ..base }
    }

    /// Multiplies alpha by the given factor; the other channels and a factor
    /// of one change nothing.
    #[must_use]
    pub fn with_alpha_factor(self, alpha: u32) -> (c: Self)
        ensures
            c.red == self.red && c.green == self.green && c.blue == self.blue,
            c.alpha == mul_bits(self.alpha, alpha),
            alpha == ONE_BITS && !is_nan_bits(self.alpha) ==> c == self,
            is_zero_bits(alpha) && is_finite_bits(self.alpha) ==> is_zero_bits(c.alpha),
    {
        Color { alpha: f32_mul(self.alpha, alpha), ..self }
    }

    /// Premultiplies the alpha channel into red, green and blue; alpha
    /// itself is kept, and an alpha of one changes nothing.
    #[must_use]
    pub fn premultiply(self) -> (c: Self)
        ensures
            c.alpha == self.alpha,
            c.red == mul_bits(self.red, self.alpha),
            c.green == mul_bits(self.green, self.alpha),
            c.blue == mul_bits(self.blue, self.alpha),
            self.alpha == ONE_BITS && !is_nan_bits(self.red) && !is_nan_bits(self.green)
                && !is_nan_bits(self.blue) ==> c == self,
    {
        Color {
            red: f32_mul(self.red, self.alpha),
            green: f32_mul(self.green, self.alpha),
            blue: f32_mul(self.blue, self.alpha),
            alpha: self.alpha,
        }
    }

    /// Performs linear interpolation on every channel independently,
    /// including alpha, without premultiplying first. At a parameter of
    /// zero the result is the first color and at one the second, as the
    /// encoded numbers, whenever no channel involved is a NaN and the
    /// far side is finite.
    #[must_use]
    pub fn lerp(self, other: Self, t: u32) -> (c: Self)
        ensures
            c.red == lerp_bits(self.red, other.red, t),
            c.green == lerp_bits(self.green, other.green, t),
            c.blue == lerp_bits(self.blue, other.blue, t),
            c.alpha == lerp_bits(self.alpha, other.alpha, t),
            t == 0 && color_non_nan(self) && color_finite(other) ==> color_f32_eq(c, self),
            t == ONE_BITS && color_finite(self) && color_non_nan(other) ==> color_f32_eq(c, other),
    {
        Color {
            red: lerp_channel(self.red, other.red, t),
            green: lerp_channel(self.green, other.green, t),
            blue: lerp_channel(self.blue, other.blue, t),
            alpha: lerp_channel(self.alpha, other.alpha, t),
        }
    }

    /// Packs the channel words in red, green, blue, alpha order.
    pub fn to_float_array(self) -> (r: [u32; 4])
        ensures
            r@ == color_to_array_spec(self),
    {
        [self.red, self.green, self.blue, self.alpha]
    }

    /// Reads channel words packed in red, green, blue, alpha order.
    pub fn from_float_array(value: [u32; 4]) -> (c: Self)
        ensures
            c == color_from_array_spec(value@),
    {
        Color { red: value[0], green: value[1], blue: value[2], alpha: value[3] }
    }
}

/// The channel words of a color in red, green, blue, alpha order.
pub open spec fn color_to_array_spec(c: Color) -> Seq<u32> {
    seq![c.red, c.green, c.blue, c.alpha]
}

/// The color whose channel words stand in red, green, blue, alpha order.
pub open spec fn color_from_array_spec(a: Seq<u32>) -> Color
    recommends
        a.len() == 4,
{
    Color { red: a[0], green: a[1], blue: a[2], alpha: a[3] }
}

/// Packing a color into its four channel words and reading them back gives
/// the color unchanged, exactly, for every color.
pub proof fn lemma_float_array_round_trip(c: Color)
    ensures
        color_from_array_spec(color_to_array_spec(c)) == c,
{
}

/// One channel of `a * (1 - t) + b * t`, with the exact endpoint behavior
/// that the interpolation contract states.
fn lerp_channel(a: u32, b: u32, t: u32) -> (r: u32)
    ensures
        r == lerp_bits(a, b, t),
        t == 0 && !is_nan_bits(a) && is_finite_bits(b) ==> f32_eq_bits(r, a),
        t == ONE_BITS && is_finite_bits(a) && !is_nan_bits(b) ==> f32_eq_bits(r, b),
{
    let w = f32_sub(ONE_BITS, t);
    let left = f32_mul(a, w);
    let right = f32_mul(b, t);
    f32_add(left, right)
}

impl Default for Color {
    /// The default color is opaque black.
    fn default() -> (c: Self)
        ensures
            c == (Color { red: 0, green: 0, blue: 0, alpha: ONE_BITS }),
    {
        Color::rgb8(0, 0, 0)
    }
}


/// True when the byte is an ASCII hexadecimal digit.
pub open spec fn is_hex_digit(b: u8) -> bool {
    ||| 0x30 <= b && b <= 0x39
    ||| 0x41 <= b && b <= 0x46
    ||| 0x61 <= b && b <= 0x66
}

/// Value of an ASCII hexadecimal digit; zero on any other byte.
pub open spec fn hex_val(b: u8) -> u8 {
    if 0x30 <= b && b <= 0x39 {
        (b - 0x30) as u8
    } else if 0x41 <= b && b <= 0x46 {
        (b - 0x41 + 10) as u8
    } else if 0x61 <= b && b <= 0x66 {
        (b - 0x61 + 10) as u8
    } else {
        0u8
    }
}

/// Converts an ASCII byte to its hexadecimal value, or gives the byte back
/// as the error when it is no hexadecimal digit.
pub fn hex_from_ascii_byte(b: u8) -> (r: Result<u8, u8>)
    ensures
        is_hex_digit(b) ==> r == Ok::<u8, u8>(hex_val(b)),
        !is_hex_digit(b) ==> r == Err::<u8, u8>(b),
{
    if 0x30 <= b && b <= 0x39 {
        Ok(b - 0x30)
    } else if 0x41 <= b && b <= 0x46 {
        Ok(b - 0x41 + 10)
    } else if 0x61 <= b && b <= 0x66 {
        Ok(b - 0x61 + 10)
    } else {
        Err(b)
    }
}

/// The bytes without one optional leading number sign.
pub open spec fn strip_hash(s: Seq<u8>) -> Seq<u8> {
    if s.len() > 0 && s[0] == 0x23 {
        s.skip(1)
    } else {
        s
    }
}

/// The eight hexadecimal digit bytes that a 3, 4, 6 or 8 digit form spreads
/// to: a single digit doubles, a missing alpha pair reads `ff`.
pub open spec fn spread_hex_spec(s: Seq<u8>) -> Option<Seq<u8>> {
    if s.len() == 3 {
        Some(seq![s[0], s[0], s[1], s[1], s[2], s[2], 0x66, 0x66])
    } else if s.len() == 4 {
        Some(seq![s[0], s[0], s[1], s[1], s[2], s[2], s[3], s[3]])
    } else if s.len() == 6 {
        Some(seq![s[0], s[1], s[2], s[3], s[4], s[5], 0x66, 0x66])
    } else if s.len() == 8 {
        Some(s)
    } else {
        None
    }
}

/// The eight 4-bit channel values of a bare run of hexadecimal digits, or
/// nothing when the length fits no form or a byte is no hexadecimal digit.
pub open spec fn hex_digits8_spec(s: Seq<u8>) -> Option<Seq<u8>> {
    match spread_hex_spec(s) {
        Option::None => None,
        Option::Some(a) => {
            if forall|i: int| 0 <= i < 8 ==> is_hex_digit(#[trigger] a[i]) {
                Some(Seq::new(8, |i: int| hex_val(a[i])))
            } else {
                None
            }
        },
    }
}

/// The eight 4-bit channel values of a hexadecimal color body that may
/// carry one leading number sign, or nothing when the length fits no form
/// or a byte is no hexadecimal digit.
pub open spec fn hex_channels_spec(s: Seq<u8>) -> Option<Seq<u8>> {
    hex_digits8_spec(strip_hash(s))
}

/// Reads the hexadecimal digits of a color body into eight 4-bit channel
/// values. The body may carry one leading number sign; it must then hold 3,
/// 4, 6 or 8 hexadecimal digits, where the short forms double each digit
/// and a missing alpha pair reads as `ff`.
pub fn get_4bit_hex_channels(hex_str: &str) -> (r: Option<[u8; 8]>)
    ensures
        r is Some <==> hex_channels_spec(hex_str.spec_bytes()) is Some,
        r is Some ==> r.unwrap()@ == hex_channels_spec(hex_str.spec_bytes()).unwrap(),
{
    let bytes = hex_str.as_bytes();
    let stripped: &[u8] = if bytes.len() > 0 && bytes[0] == 0x23 {
        &bytes[1..bytes.len()]
    } else {
        bytes
    };
    proof {
        assert(stripped@ =~= strip_hash(hex_str.spec_bytes()));
    }
    hex_digits_bytes(stripped)
}

/// Reads a bare run of 3, 4, 6 or 8 hexadecimal digit bytes into eight
/// 4-bit channel values; a leading number sign is not accepted here.
fn hex_digits_bytes(stripped: &[u8]) -> (r: Option<[u8; 8]>)
    ensures
        r is Some <==> hex_digits8_spec(stripped@) is Some,
        r is Some ==> r.unwrap()@ == hex_digits8_spec(stripped@).unwrap(),
{
    let n = stripped.len();
    let a: [u8; 8] = if n == 3 {
        [stripped[0], stripped[0], stripped[1], stripped[1], stripped[2], stripped[2], 0x66, 0x66]
    } else if n == 4 {
        [
            stripped[0],
            stripped[0],
            stripped[1],
            stripped[1],
            stripped[2],
            stripped[2],
            stripped[3],
            stripped[3],
        ]
    } else if n == 6 {
        [
            stripped[0],
            stripped[1],
            stripped[2],
            stripped[3],
            stripped[4],
            stripped[5],
            0x66,
            0x66,
        ]
    } else if n == 8 {
        [
            stripped[0],
            stripped[1],
            stripped[2],
            stripped[3],
            stripped[4],
            stripped[5],
            stripped[6],
            stripped[7],
        ]
    } else {
        return None;
    };
    proof {
        assert(a@ =~= spread_hex_spec(stripped@).unwrap());
    }
    let c0 = match hex_from_ascii_byte(a[0]) {
        Ok(v) => v,
        Err(_) => {
            return None;
        },
    };
    let c1 = match hex_from_ascii_byte(a[1]) {
        Ok(v) => v,
        Err(_) => {
            return None;
        },
    };
    let c2 = match hex_from_ascii_byte(a[2]) {
        Ok(v) => v,
        Err(_) => {
            return None;
        },
    };
    let c3 = match hex_from_ascii_byte(a[3]) {
        Ok(v) => v,
        Err(_) => {
            return None;
        },
    };
    let c4 = match hex_from_ascii_byte(a[4]) {
        Ok(v) => v,
        Err(_) => {
            return None;
        },
    };
    let c5 = match hex_from_ascii_byte(a[5]) {
        Ok(v) => v,
        Err(_) => {
            return None;
        },
    };
    let c6 = match hex_from_ascii_byte(a[6]) {
        Ok(v) => v,
        Err(_) => {
            return None;
        },
    };
    let c7 = match hex_from_ascii_byte(a[7]) {
        Ok(v) => v,
        Err(_) => {
            return None;
        },
    };
    let out = [c0, c1, c2, c3, c4, c5, c6, c7];
    proof {
        assert(out@ =~= hex_digits8_spec(stripped@).unwrap());
    }
    Some(out)
}

/// The color that eight 4-bit channel values name: consecutive values pair
/// into the four 8-bit channels of an sRGB quadruple.
pub open spec fn color_from_nibbles_spec(n: Seq<u8>) -> Color
    recommends
        n.len() == 8,
        forall|i: int| 0 <= i < 8 ==> n[i] < 16,
{
    rgba8_spec(
        (n[0] * 16 + n[1]) as u8,
        (n[2] * 16 + n[3]) as u8,
        (n[4] * 16 + n[5]) as u8,
        (n[6] * 16 + n[7]) as u8,
    )
}

/// Pairs eight 4-bit channel values into four 8-bit channels and decodes
/// them as an sRGB quadruple.
fn color_from_4bit_hex(components: [u8; 8]) -> (c: Color)
    requires
        forall|i: int| 0 <= i < 8 ==> components@[i] < 16,
    ensures
        c == color_from_nibbles_spec(components@),
{
    Color::rgba8(
        components[0] * 16 + components[1],
        components[2] * 16 + components[3],
        components[4] * 16 + components[5],
        components[6] * 16 + components[7],
    )
}

/// True when the byte is an ASCII whitespace character.
pub open spec fn is_ascii_space(b: u8) -> bool {
    b == 0x20 || (0x09 <= b && b <= 0x0D)
}

/// True when the two bytes are the UTF-8 encoding of a two-byte Unicode
/// whitespace character: next line or no-break space.
pub open spec fn is_two_byte_space(a: u8, b: u8) -> bool {
    a == 0xC2 && (b == 0x85 || b == 0xA0)
}

/// True when the three bytes are the UTF-8 encoding of a three-byte
/// Unicode whitespace character: the ogham space mark, the en-quad to
/// hair-space range, the line and paragraph separators, the narrow
/// no-break space, the medium mathematical space, or the ideographic
/// space.
pub open spec fn is_three_byte_space(a: u8, b: u8, c: u8) -> bool {
    ||| (a == 0xE1 && b == 0x9A && c == 0x80)
    ||| (a == 0xE2 && b == 0x80 && ((0x80 <= c && c <= 0x8A) || c == 0xA8 || c == 0xA9 || c
        == 0xAF))
    ||| (a == 0xE2 && b == 0x81 && c == 0x9F)
    ||| (a == 0xE3 && b == 0x80 && c == 0x80)
}

/// Length of the whitespace character encoded at the front of the bytes,
/// or zero when the bytes do not open with whitespace. The three matchers
/// together cover exactly the UTF-8 encodings of the Unicode whitespace
/// characters.
pub open spec fn ws_at_front(s: Seq<u8>) -> int {
    if s.len() >= 1 && is_ascii_space(s[0]) {
        1
    } else if s.len() >= 2 && is_two_byte_space(s[0], s[1]) {
        2
    } else if s.len() >= 3 && is_three_byte_space(s[0], s[1], s[2]) {
        3
    } else {
        0
    }
}

/// Length of the whitespace character encoded at the end of the bytes, or
/// zero when the bytes do not close with whitespace. Reading backwards is
/// unambiguous in well-formed UTF-8, since lead and continuation bytes
/// occupy disjoint ranges.
pub open spec fn ws_at_end(s: Seq<u8>) -> int {
    let n = s.len() as int;
    if n >= 1 && is_ascii_space(s[n - 1]) {
        1
    } else if n >= 2 && is_two_byte_space(s[n - 2], s[n - 1]) {
        2
    } else if n >= 3 && is_three_byte_space(s[n - 3], s[n - 2], s[n - 1]) {
        3
    } else {
        0
    }
}

/// The bytes without their leading whitespace characters.
pub open spec fn trim_start_spec(s: Seq<u8>) -> Seq<u8>
    decreases s.len(),
{
    let k = ws_at_front(s);
    if k > 0 {
        trim_start_spec(s.skip(k))
    } else {
        s
    }
}

/// The bytes without their trailing whitespace characters.
pub open spec fn trim_end_spec(s: Seq<u8>) -> Seq<u8>
    decreases s.len(),
{
    let k = ws_at_end(s);
    if k > 0 {
        trim_end_spec(s.take(s.len() - k))
    } else {
        s
    }
}

/// The bytes without leading and trailing whitespace characters.
pub open spec fn trim_spec(s: Seq<u8>) -> Seq<u8> {
    trim_end_spec(trim_start_spec(s))
}

/// Length of the whitespace character at the given place, or zero.
fn ws_len_at(bytes: &[u8], at: usize) -> (k: usize)
    requires
        at <= bytes@.len(),
    ensures
        k == ws_at_front(bytes@.skip(at as int)),
        at + k <= bytes@.len(),
{
    let n = bytes.len();
    if at < n && (bytes[at] == 0x20 || (0x09 <= bytes[at] && bytes[at] <= 0x0D)) {
        1
    } else if n - at >= 2 && bytes[at] == 0xC2 && (bytes[at + 1] == 0x85 || bytes[at + 1]
        == 0xA0) {
        2
    } else if n - at >= 3 && (bytes[at] == 0xE1 || bytes[at] == 0xE2 || bytes[at] == 0xE3) {
        let (a, b, c) = (bytes[at], bytes[at + 1], bytes[at + 2]);
        if (a == 0xE1 && b == 0x9A && c == 0x80) || (a == 0xE2 && b == 0x80 && ((0x80 <= c && c
            <= 0x8A) || c == 0xA8 || c == 0xA9 || c == 0xAF)) || (a == 0xE2 && b == 0x81 && c
            == 0x9F) || (a == 0xE3 && b == 0x80 && c == 0x80) {
            3
        } else {
            0
        }
    } else {
        0
    }
}

/// Length of the whitespace character closing the given range, or zero.
fn ws_len_before(bytes: &[u8], lo: usize, hi: usize) -> (k: usize)
    requires
        lo <= hi <= bytes@.len(),
    ensures
        k == ws_at_end(bytes@.subrange(lo as int, hi as int)),
        k <= hi - lo,
{
    if hi > lo && (bytes[hi - 1] == 0x20 || (0x09 <= bytes[hi - 1] && bytes[hi - 1] <= 0x0D)) {
        1
    } else if hi - lo >= 2 && bytes[hi - 2] == 0xC2 && (bytes[hi - 1] == 0x85 || bytes[hi - 1]
        == 0xA0) {
        2
    } else if hi - lo >= 3 && (bytes[hi - 3] == 0xE1 || bytes[hi - 3] == 0xE2 || bytes[hi - 3]
        == 0xE3) {
        let (a, b, c) = (bytes[hi - 3], bytes[hi - 2], bytes[hi - 1]);
        if (a == 0xE1 && b == 0x9A && c == 0x80) || (a == 0xE2 && b == 0x80 && ((0x80 <= c && c
            <= 0x8A) || c == 0xA8 || c == 0xA9 || c == 0xAF)) || (a == 0xE2 && b == 0x81 && c
            == 0x9F) || (a == 0xE3 && b == 0x80 && c == 0x80) {
            3
        } else {
            0
        }
    } else {
        0
    }
}

/// The slice without leading and trailing whitespace characters.
fn trim_slice(bytes: &[u8]) -> (r: &[u8])
    ensures
        r@ == trim_spec(bytes@),
{
    let n = bytes.len();
    let mut lo: usize = 0;
    let mut k = ws_len_at(bytes, 0);
    proof {
        assert(bytes@.skip(0) =~= bytes@);
    }
    while k != 0
        invariant
            n == bytes@.len(),
            lo + k <= n,
            k == ws_at_front(bytes@.skip(lo as int)),
            trim_start_spec(bytes@) == trim_start_spec(bytes@.skip(lo as int)),
        decreases n - lo,
    {
        proof {
            assert(bytes@.skip(lo as int).skip(k as int) =~= bytes@.skip(lo + k));
        }
        lo += k;
        k = ws_len_at(bytes, lo);
    }
    proof {
        assert(trim_start_spec(bytes@) == bytes@.skip(lo as int));
        assert(bytes@.skip(lo as int) =~= bytes@.subrange(lo as int, n as int));
    }
    let mut hi: usize = n;
    let mut k2 = ws_len_before(bytes, lo, hi);
    while k2 != 0
        invariant
            n == bytes@.len(),
            lo <= hi <= n,
            k2 <= hi - lo,
            k2 == ws_at_end(bytes@.subrange(lo as int, hi as int)),
            trim_end_spec(bytes@.subrange(lo as int, n as int)) == trim_end_spec(
                bytes@.subrange(lo as int, hi as int),
            ),
        decreases hi,
    {
        proof {
            let t = bytes@.subrange(lo as int, hi as int);
            assert(t.take(t.len() - k2) =~= bytes@.subrange(lo as int, hi - k2));
        }
        hi -= k2;
        k2 = ws_len_before(bytes, lo, hi);
    }
    proof {
        assert(trim_spec(bytes@) == bytes@.subrange(lo as int, hi as int));
    }
    &bytes[lo..hi]
}

/// The color the given bytes spell, after trimming ASCII whitespace: a
/// hexadecimal form with one optional leading number sign, a bare
/// hexadecimal form, or a lowercase SVG color name; nothing when the bytes
/// spell none of these. With a leading number sign only the hexadecimal
/// reading is tried.
pub open spec fn parse_spec(s: Seq<u8>) -> Option<Color> {
    let t = trim_spec(s);
    if t.len() > 0 && t[0] == 0x23 {
        match hex_digits8_spec(t.skip(1)) {
            Option::Some(n) => Some(color_from_nibbles_spec(n)),
            Option::None => None,
        }
    } else {
        match hex_digits8_spec(t) {
            Option::Some(n) => Some(color_from_nibbles_spec(n)),
            Option::None => crate::named::named_color_spec(t),
        }
    }
}

impl Color {
    /// Parses a color from a string.
    ///
    /// Accepts CSS-style hexadecimal colors of the forms `#RGB`, `#RGBA`,
    /// `#RRGGBB` and `#RRGGBBAA`, with the single leading number sign
    /// optional, and the lowercase name of an SVG color such as
    /// `aliceblue`. Leading and trailing whitespace is ignored. On any
    /// other input, including the empty string, nothing is returned and
    /// nothing fails.
    #[must_use]
    pub fn parse(s: &str) -> (r: Option<Color>)
        ensures
            r == parse_spec(s.spec_bytes()),
    {
        let bytes = s.as_bytes();
        let t = trim_slice(bytes);
        if t.len() > 0 && t[0] == 0x23 {
            let body = &t[1..t.len()];
            proof {
                assert(body@ =~= trim_spec(s.spec_bytes()).skip(1));
            }
            match hex_digits_bytes(body) {
                Option::Some(a) => {
                    proof {
                        lemma_hex_digits_bounded(body@);
                    }
                    Some(color_from_4bit_hex(a))
                },
                Option::None => None,
            }
        } else {
            match hex_digits_bytes(t) {
                Option::Some(a) => {
                    proof {
                        lemma_hex_digits_bounded(t@);
                    }
                    Some(color_from_4bit_hex(a))
                },
                Option::None => crate::named::named_color(t),
            }
        }
    }
}

/// Every 4-bit channel value that the hexadecimal reading yields lies
/// below sixteen.
proof fn lemma_hex_digits_bounded(s: Seq<u8>)
    requires
        hex_digits8_spec(s) is Some,
    ensures
        hex_digits8_spec(s).unwrap().len() == 8,
        forall|i: int| 0 <= i < 8 ==> hex_digits8_spec(s).unwrap()[i] < 16,
{
    let n = hex_digits8_spec(s).unwrap();
    assert forall|i: int| 0 <= i < 8 implies n[i] < 16 by {
        let a = spread_hex_spec(s).unwrap();
        assert(n[i] == hex_val(a[i]));
    }
}

} // verus!
