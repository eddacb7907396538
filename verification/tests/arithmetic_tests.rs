//! Holds the crate's channel arithmetic against the machine's own floats
//! across edge-case bit patterns: signed zeros, subnormals, the smallest
//! and largest normal numbers, and infinities.

use peniko::{Color, Gradient};

fn patterns() -> Vec<u32> {
    vec![
        0x0000_0000,          // +0
        0x8000_0000,          // -0
        0x0000_0001,          // smallest subnormal
        0x007F_FFFF,          // largest subnormal
        0x0080_0000,          // smallest normal
        0x7F7F_FFFF,          // largest finite
        0x7F80_0000,          // +infinity
        0xFF80_0000,          // -infinity
        1.0f32.to_bits(),
        (-1.0f32).to_bits(),
        0.5f32.to_bits(),
        (1.0f32 / 3.0).to_bits(),
        (-7.25f32).to_bits(),
        3.5e37f32.to_bits(),
        1.5e-39f32.to_bits(), // subnormal from a literal
        0x3F80_0001,          // one plus one ulp
    ]
}

fn same_number(ours: u32, hardware: u32) -> bool {
    if f32::from_bits(hardware).is_nan() {
        // A NaN payload may differ between implementations; only the
        // NaN-ness is compared.
        f32::from_bits(ours).is_nan()
    } else {
        ours == hardware
    }
}

#[test]
fn products_match_hardware_across_patterns() {
    for &x in &patterns() {
        for &a in &patterns() {
            let c = Color { red: x, green: 0, blue: 0, alpha: a };
            let p = c.premultiply();
            let hardware = (f32::from_bits(x) * f32::from_bits(a)).to_bits();
            assert!(
                same_number(p.red, hardware),
                "{x:#010x} * {a:#010x}: got {:#010x}, hardware {hardware:#010x}",
                p.red
            );
        }
    }
}

#[test]
fn interpolation_matches_hardware_across_patterns() {
    let ts = [
        0.0f32.to_bits(),
        1.0f32.to_bits(),
        0.25f32.to_bits(),
        (-0.5f32).to_bits(),
        2.0f32.to_bits(),
    ];
    for &a in &patterns() {
        for &b in &patterns() {
            for &t in &ts {
                let ca = Color { red: a, green: 0, blue: 0, alpha: 0 };
                let cb = Color { red: b, green: 0, blue: 0, alpha: 0 };
                let m = ca.lerp(cb, t);
                let (fa, fb, ft) = (f32::from_bits(a), f32::from_bits(b), f32::from_bits(t));
                let hardware = (fa * (1.0 - ft) + fb * ft).to_bits();
                assert!(
                    same_number(m.red, hardware),
                    "lerp({a:#010x}, {b:#010x}, {t:#010x}): got {:#010x}, hardware {hardware:#010x}",
                    m.red
                );
            }
        }
    }
}

#[test]
fn spread_offsets_match_hardware_for_many_counts() {
    let c = Color::rgb8(3, 1, 4);
    for n in 1usize..60 {
        let colors = vec![c; n];
        let g = Gradient::default().with_stops(&colors[..]);
        let stops = g.stops.to_vec();
        assert_eq!(stops.len(), n);
        let denom = (n - 1).max(1) as f32;
        for (i, s) in stops.iter().enumerate() {
            assert_eq!(s.offset, (i as f32 / denom).to_bits());
        }
    }
}
