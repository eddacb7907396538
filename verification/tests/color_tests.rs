use peniko::Color;

use std::collections::hash_map::DefaultHasher;
use std::hash::{Hash, Hasher};

fn bits(x: f32) -> u32 {
    x.to_bits()
}

fn hash_of<T: Hash>(v: &T) -> u64 {
    let mut h = DefaultHasher::new();
    v.hash(&mut h);
    h.finish()
}

#[test]
fn rgb8_matches_srgb_table() {
    for i in 0..=255u8 {
        let c = Color::rgb8(i, i, i);
        let expected = fast_srgb8::srgb8_to_f32(i).to_bits();
        assert_eq!(c.red, expected);
        assert_eq!(c.green, expected);
        assert_eq!(c.blue, expected);
        assert_eq!(c.alpha, bits(1.0));
    }
}

#[test]
fn srgb_decode_is_monotone() {
    for i in 0..255u8 {
        let lo = f32::from_bits(Color::rgb8(i, 0, 0).red);
        let hi = f32::from_bits(Color::rgb8(i + 1, 0, 0).red);
        assert!(lo <= hi);
    }
    assert_eq!(Color::rgb8(0, 0, 0).red, bits(0.0));
    assert_eq!(Color::rgb8(255, 0, 0).red, bits(1.0));
}

#[test]
fn rgba8_alpha_is_linear() {
    for a in 0..=255u8 {
        let c = Color::rgba8(10, 20, 30, a);
        assert_eq!(c.alpha, (a as f32 / 255.0).to_bits());
    }
    assert_eq!(Color::rgba8(0, 0, 0, 255).alpha, bits(1.0));
    assert_eq!(Color::rgba8(0, 0, 0, 0).alpha, bits(0.0));
}

#[test]
fn with_alpha_factor_scales_only_alpha() {
    let c = Color::rgba8(10, 20, 30, 255);
    let half = c.with_alpha_factor(bits(0.5));
    assert_eq!(half.red, c.red);
    assert_eq!(half.green, c.green);
    assert_eq!(half.blue, c.blue);
    assert_eq!(half.alpha, (1.0f32 * 0.5).to_bits());
}

#[test]
fn with_alpha_factor_one_is_identity() {
    let c = Color::rgba8(1, 2, 3, 77);
    assert_eq!(c.with_alpha_factor(bits(1.0)), c);
}

#[test]
fn with_alpha_factor_zero_clears_alpha() {
    let c = Color::rgba8(1, 2, 3, 77);
    let cleared = c.with_alpha_factor(bits(0.0));
    assert_eq!(cleared.alpha, bits(0.0));
    assert_eq!(cleared.red, c.red);
    assert_eq!(cleared.green, c.green);
    assert_eq!(cleared.blue, c.blue);
}

#[test]
fn premultiply_matches_hardware() {
    let c = Color {
        red: bits(0.25),
        green: bits(0.75),
        blue: bits(1.5),
        alpha: bits(0.3),
    };
    let p = c.premultiply();
    assert_eq!(p.red, (0.25f32 * 0.3).to_bits());
    assert_eq!(p.green, (0.75f32 * 0.3).to_bits());
    assert_eq!(p.blue, (1.5f32 * 0.3).to_bits());
    assert_eq!(p.alpha, c.alpha);
}

#[test]
fn premultiply_opaque_is_identity() {
    let c = Color::rgb8(12, 200, 31);
    assert_eq!(c.premultiply(), c);
}

#[test]
fn lerp_boundaries() {
    let a = Color::rgba8(10, 20, 30, 40);
    let b = Color::rgba8(200, 150, 100, 50);
    assert_eq!(a.lerp(b, bits(0.0)), a);
    assert_eq!(a.lerp(b, bits(1.0)), b);
}

#[test]
fn lerp_midpoint_matches_hardware() {
    let a = Color::rgba8(10, 20, 30, 40);
    let b = Color::rgba8(200, 150, 100, 50);
    let m = a.lerp(b, bits(0.25));
    let reference = |x: u32, y: u32| -> u32 {
        let (x, y) = (f32::from_bits(x), f32::from_bits(y));
        (x * (1.0 - 0.25) + y * 0.25).to_bits()
    };
    assert_eq!(m.red, reference(a.red, b.red));
    assert_eq!(m.green, reference(a.green, b.green));
    assert_eq!(m.blue, reference(a.blue, b.blue));
    assert_eq!(m.alpha, reference(a.alpha, b.alpha));
}

#[test]
fn float_array_round_trip() {
    let c = Color::rgba8(7, 77, 177, 211);
    assert_eq!(Color::from_float_array(c.to_float_array()), c);
    let arr = [bits(0.1), bits(0.2), bits(0.3), bits(0.4)];
    assert_eq!(Color::from_float_array(arr).to_float_array(), arr);
}

#[test]
fn default_is_opaque_black() {
    let c = Color::default();
    assert_eq!(c, Color::rgb8(0, 0, 0));
    assert_eq!(c.red, bits(0.0));
    assert_eq!(c.alpha, bits(1.0));
}

#[test]
fn equality_and_hash_are_bit_exact() {
    let a = Color::rgba8(1, 2, 3, 4);
    let b = Color::rgba8(1, 2, 3, 4);
    assert_eq!(a, b);
    assert_eq!(hash_of(&a), hash_of(&b));
    let pos = Color { red: bits(0.0), green: 0, blue: 0, alpha: 0 };
    let neg = Color { red: bits(-0.0), green: 0, blue: 0, alpha: 0 };
    assert_ne!(pos, neg);
}

#[test]
fn parse_hex_short_form() {
    assert_eq!(Color::parse("#F00"), Some(Color::rgb8(255, 0, 0)));
    assert_eq!(Color::parse("#abc"), Color::parse("#aabbcc"));
}

#[test]
fn parse_hex_four_digit_form() {
    assert_eq!(Color::parse("#abcd"), Color::parse("#aabbccdd"));
    let c = Color::parse("#000f").unwrap();
    assert_eq!(c.alpha, bits(1.0));
}

#[test]
fn parse_hex_long_form_with_alpha() {
    assert_eq!(Color::parse("#ff0000ff"), Some(Color::rgb8(255, 0, 0)));
    let half = Color::parse("#ff000080").unwrap();
    assert_eq!(half.alpha, Color::rgba8(255, 0, 0, 0x80).alpha);
}

#[test]
fn parse_hex_without_number_sign() {
    assert_eq!(Color::parse("F00"), Some(Color::rgb8(255, 0, 0)));
    assert_eq!(Color::parse("ff0000ff"), Some(Color::rgb8(255, 0, 0)));
}

#[test]
fn parse_named_colors() {
    assert_eq!(Color::parse("red"), Some(Color::rgb8(255, 0, 0)));
    assert_eq!(Color::parse("cornflowerblue"), Some(Color::rgb8(100, 149, 237)));
    assert_eq!(Color::parse("rebeccapurple"), Some(Color::rgb8(102, 51, 153)));
    assert_eq!(
        Color::parse("transparent"),
        Some(Color { red: 0, green: 0, blue: 0, alpha: 0 })
    );
}

#[test]
fn parse_trims_surrounding_whitespace() {
    assert_eq!(Color::parse("  red\t\n"), Some(Color::rgb8(255, 0, 0)));
    assert_eq!(Color::parse(" #F00 "), Some(Color::rgb8(255, 0, 0)));
}

#[test]
fn parse_rejects_malformed_input() {
    assert_eq!(Color::parse("not-a-color"), None);
    assert_eq!(Color::parse(""), None);
    assert_eq!(Color::parse("   "), None);
    assert_eq!(Color::parse("#12345"), None);
    assert_eq!(Color::parse("#GGG"), None);
    assert_eq!(Color::parse("Red"), None);
    assert_eq!(Color::parse("caf\u{e9}"), None);
}

#[test]
fn parse_rejects_a_doubled_number_sign() {
    assert_eq!(Color::parse("##abc"), None);
    assert_eq!(Color::parse("##aabbcc"), None);
    assert_eq!(Color::parse("# abc"), None);
    // The raw channel reader keeps its own optional number sign.
    assert!(peniko::get_4bit_hex_channels("#abc").is_some());
    assert_eq!(peniko::get_4bit_hex_channels("##abc"), None);
}

#[test]
fn parse_trims_unicode_whitespace_like_str_trim() {
    assert_eq!(Color::parse("\u{a0}red\u{a0}"), Some(Color::rgb8(255, 0, 0)));
    assert_eq!(Color::parse("\u{2009}#F00\u{3000}"), Some(Color::rgb8(255, 0, 0)));
    assert_eq!(Color::parse("\u{85}\u{1680}blue\u{2028}\u{202f}"), Some(Color::rgb8(0, 0, 255)));
    assert_eq!(Color::parse("\u{2028}\u{2029}"), None);
    let inputs = [
        " red ",
        "\u{a0}\u{a0}cornsilk\t",
        "\u{2000}\u{2001}#abc\u{200a}",
        "\u{205f}transparent\u{3000}",
        "\u{1680} 00ff00ff \u{85}",
        "\u{2029}",
        "nonsense\u{a0}",
    ];
    for s in inputs {
        assert_eq!(Color::parse(s), Color::parse(s.trim()), "input {s:?}");
    }
}

#[test]
fn hex_from_ascii_byte_values() {
    assert_eq!(peniko::Color::parse("#0fF"), Some(Color::rgb8(0, 255, 255)));
    assert_eq!(peniko::get_4bit_hex_channels("abc"), Some([10, 10, 11, 11, 12, 12, 15, 15]));
    assert_eq!(peniko::get_4bit_hex_channels("#abc"), Some([10, 10, 11, 11, 12, 12, 15, 15]));
    assert_eq!(peniko::get_4bit_hex_channels("12345"), None);
    assert_eq!(peniko::get_4bit_hex_channels("zzz"), None);
    assert_eq!(peniko::hex_from_ascii_byte(b'7'), Ok(7));
    assert_eq!(peniko::hex_from_ascii_byte(b'a'), Ok(10));
    assert_eq!(peniko::hex_from_ascii_byte(b'F'), Ok(15));
    assert_eq!(peniko::hex_from_ascii_byte(b'g'), Err(b'g'));
}
