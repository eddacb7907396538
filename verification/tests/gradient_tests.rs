use peniko::{Color, ColorStop, ColorStops, Extend, Gradient, GradientKind, Point};

use std::cmp::Ordering;
use std::collections::hash_map::DefaultHasher;
use std::hash::{Hash, Hasher};

fn bits(x: f32) -> u32 {
    x.to_bits()
}

fn hash_of<T: Hash>(v: &T) -> u64 {
    let mut h = DefaultHasher::new();
    v.hash(&mut h);
    h.finish()
}

fn stop(offset: f32, color: Color) -> ColorStop {
    ColorStop { offset: offset.to_bits(), color }
}

#[test]
fn stop_construction_paths_agree() {
    let color = Color::rgb8(10, 20, 30);
    let via_tuple = ColorStop::from((bits(0.25), color));
    let via_literal = ColorStop { offset: bits(0.25), color };
    assert_eq!(via_tuple, via_literal);
    assert_eq!(hash_of(&via_tuple), hash_of(&via_literal));
}

#[test]
fn stop_order_follows_offsets() {
    let a = stop(0.25, Color::default());
    let b = stop(0.5, Color::default());
    assert_eq!(a.partial_cmp(&b), Some(Ordering::Less));
    assert_eq!(b.partial_cmp(&a), Some(Ordering::Greater));
    assert_eq!(a.partial_cmp(&a), Some(Ordering::Equal));
    assert!(a < b);
}

#[test]
fn stop_order_handles_zeros_and_nan() {
    let pos = stop(0.0, Color::default());
    let neg = stop(-0.0, Color::default());
    assert_eq!(pos.partial_cmp(&neg), Some(Ordering::Equal));
    assert_ne!(pos, neg);
    let nan = stop(f32::NAN, Color::default());
    assert_eq!(nan.partial_cmp(&pos), None);
    assert_eq!(pos.partial_cmp(&nan), None);
    let low = stop(-1.0, Color::default());
    assert_eq!(low.partial_cmp(&pos), Some(Ordering::Less));
}

#[test]
fn stop_with_alpha_factor_halves_alpha() {
    let s = stop(0.25, Color::rgba8(1, 2, 3, 255));
    let h = s.with_alpha_factor(bits(0.5));
    assert_eq!(h.offset, s.offset);
    assert_eq!(h.color.red, s.color.red);
    assert_eq!(h.color.alpha, (1.0f32 * 0.5).to_bits());
    assert_eq!(s.with_alpha_factor(bits(1.0)), s);
}

#[test]
fn color_stops_collection_operations() {
    let mut stops = ColorStops::new();
    assert_eq!(stops.len(), 0);
    let s0 = stop(0.0, Color::rgb8(1, 1, 1));
    let s1 = stop(1.0, Color::rgb8(2, 2, 2));
    stops.push(s0);
    stops.push(s1);
    assert_eq!(stops.len(), 2);
    assert_eq!(stops.get(0), s0);
    assert_eq!(stops.get(1), s1);
    stops.set(0, s1);
    assert_eq!(stops.get(0), s1);
    assert_eq!(stops.to_vec(), vec![s1, s1]);
    let copy = stops.clone();
    assert!(copy == stops);
    stops.clear();
    assert_eq!(stops.len(), 0);
    assert!(copy != stops);
}

#[test]
fn constructors_set_geometry_and_defaults() {
    let p = Point::new(1.0f64.to_bits(), 2.0f64.to_bits());
    let q = Point::new(3.0f64.to_bits(), 4.0f64.to_bits());

    let linear = Gradient::new_linear(p, q);
    assert_eq!(linear.kind, GradientKind::Linear { start: p, end: q });
    assert_eq!(linear.extend, Extend::Pad);
    assert_eq!(linear.stops.len(), 0);

    let radial = Gradient::new_radial(p, bits(5.0));
    assert_eq!(
        radial.kind,
        GradientKind::Radial {
            start_center: p,
            start_radius: 0,
            end_center: p,
            end_radius: bits(5.0),
        }
    );
    assert_eq!(radial.kind, GradientKind::Radial {
        start_center: p,
        start_radius: 0.0f32.to_bits(),
        end_center: p,
        end_radius: bits(5.0),
    });

    let two_point = Gradient::new_two_point_radial(p, bits(1.0), q, bits(2.0));
    assert_eq!(
        two_point.kind,
        GradientKind::Radial {
            start_center: p,
            start_radius: bits(1.0),
            end_center: q,
            end_radius: bits(2.0),
        }
    );

    let sweep = Gradient::new_sweep(p, bits(0.5), bits(6.5));
    assert_eq!(
        sweep.kind,
        GradientKind::Sweep { center: p, start_angle: bits(0.5), end_angle: bits(6.5) }
    );

    let d = Gradient::default();
    assert_eq!(
        d.kind,
        GradientKind::Linear { start: Point::default(), end: Point::default() }
    );
    assert_eq!(Point::default(), Point::new(0.0f64.to_bits(), 0.0f64.to_bits()));
    assert_eq!(d.extend, Extend::Pad);
    assert_eq!(d.stops.len(), 0);
}

#[test]
fn with_extend_replaces_mode() {
    let g = Gradient::default().with_extend(Extend::Reflect);
    assert_eq!(g.extend, Extend::Reflect);
    assert_eq!(Extend::default(), Extend::Pad);
}

#[test]
fn with_stops_copies_explicit_stops_in_order() {
    let s0 = stop(0.7, Color::rgb8(1, 0, 0));
    let s1 = stop(0.2, Color::rgb8(0, 1, 0));
    let g = Gradient::default().with_stops(&[s0, s1][..]);
    assert_eq!(g.stops.to_vec(), vec![s0, s1]);
}

#[test]
fn with_stops_accepts_offset_color_pairs() {
    let c = Color::rgb8(9, 9, 9);
    let g = Gradient::default().with_stops(&[(bits(0.1), c), (bits(0.9), c)][..]);
    assert_eq!(g.stops.to_vec(), vec![stop(0.1, c), stop(0.9, c)]);
}

#[test]
fn with_stops_spreads_bare_colors_evenly() {
    let c0 = Color::rgb8(255, 0, 0);
    let c1 = Color::rgb8(0, 255, 0);
    let c2 = Color::rgb8(0, 0, 255);
    let g = Gradient::default().with_stops(&[c0, c1, c2][..]);
    assert_eq!(g.stops.to_vec(), vec![stop(0.0, c0), stop(0.5, c1), stop(1.0, c2)]);
}

#[test]
fn with_stops_single_color_sits_at_zero() {
    let c = Color::rgb8(8, 8, 8);
    let g = Gradient::default().with_stops(&[c][..]);
    assert_eq!(g.stops.to_vec(), vec![stop(0.0, c)]);
}

#[test]
fn with_stops_empty_colors_give_no_stops() {
    let g = Gradient::default().with_stops(&[][..] as &[Color]);
    assert_eq!(g.stops.len(), 0);
}

#[test]
fn with_stops_four_colors_match_hardware_offsets() {
    let c = Color::rgb8(1, 2, 3);
    let g = Gradient::default().with_stops(&[c, c, c, c][..]);
    let offsets: Vec<u32> = g.stops.to_vec().iter().map(|s| s.offset).collect();
    let expected: Vec<u32> = (0..4).map(|i| (i as f32 / 3.0).to_bits()).collect();
    assert_eq!(offsets, expected);
}

#[test]
fn with_stops_replaces_earlier_stops() {
    let c = Color::rgb8(5, 5, 5);
    let g = Gradient::default()
        .with_stops(&[c, c][..])
        .with_stops(&[stop(0.3, c)][..]);
    assert_eq!(g.stops.to_vec(), vec![stop(0.3, c)]);
}

#[test]
fn gradient_equality_is_structural() {
    let c0 = Color::rgb8(255, 0, 0);
    let c1 = Color::rgb8(0, 0, 255);
    let make = || Gradient::default().with_stops(&[c0, c1][..]);
    assert!(make() == make());
    assert!(make() != make().with_extend(Extend::Repeat));
    assert!(make() != Gradient::default().with_stops(&[c1, c0][..]));
    let clone = make().clone();
    assert!(clone == make());
}

#[test]
fn with_stops_accepts_arrays() {
    let c0 = Color::rgb8(255, 0, 0);
    let c1 = Color::rgb8(0, 255, 0);
    let c2 = Color::rgb8(0, 0, 255);
    let g = Gradient::default().with_stops([c0, c1, c2]);
    assert_eq!(g.stops.to_vec(), vec![stop(0.0, c0), stop(0.5, c1), stop(1.0, c2)]);
    let g = Gradient::default().with_stops([stop(0.1, c0), stop(0.9, c1)]);
    assert_eq!(g.stops.to_vec(), vec![stop(0.1, c0), stop(0.9, c1)]);
    let g = Gradient::default().with_stops([(0.3f32.to_bits(), c2)]);
    assert_eq!(g.stops.to_vec(), vec![stop(0.3, c2)]);
}
