use peniko::{Blob, Brush, BrushRef, Color, ColorStop, Extend, Font, Format, Gradient, Image};

fn bits(x: f32) -> u32 {
    x.to_bits()
}

fn stop(offset: f32, color: Color) -> ColorStop {
    ColorStop { offset: offset.to_bits(), color }
}

fn sample_gradient() -> Gradient {
    let c0 = Color::rgba8(255, 0, 0, 255);
    let c1 = Color::rgba8(0, 0, 255, 255);
    Gradient::default().with_stops(&[stop(0.0, c0), stop(1.0, c1)][..])
}

fn sample_image() -> Image {
    Image::new(Blob::new(vec![1, 2, 3, 4]), Format::Rgba8, 1, 1)
}

#[test]
fn brush_from_conversions() {
    let c = Color::rgb8(1, 2, 3);
    assert!(Brush::from(c) == Brush::Solid(c));
    let g = sample_gradient();
    assert!(Brush::from(g.clone()) == Brush::Gradient(g));
    let img = sample_image();
    assert!(Brush::from(img.clone()) == Brush::Image(img));
}

#[test]
fn brush_default_is_solid_default_color() {
    assert!(Brush::default() == Brush::Solid(Color::default()));
}

#[test]
fn brush_alpha_factor_one_returns_input_unchanged() {
    let brush = Brush::Gradient(sample_gradient());
    assert!(brush.clone().with_alpha_factor(bits(1.0)) == brush);
    let solid = Brush::Solid(Color::rgba8(1, 2, 3, 128));
    assert!(solid.clone().with_alpha_factor(bits(1.0)) == solid);
}

#[test]
fn brush_alpha_factor_recurses_into_gradient_stops() {
    let brush = Brush::Gradient(sample_gradient());
    let scaled = brush.with_alpha_factor(bits(0.5));
    let halved_alpha = (1.0f32 * 0.5).to_bits();
    match scaled {
        Brush::Gradient(g) => {
            let stops = g.stops.to_vec();
            assert_eq!(stops.len(), 2);
            assert_eq!(stops[0].offset, bits(0.0));
            assert_eq!(stops[1].offset, bits(1.0));
            assert_eq!(stops[0].color.red, Color::rgb8(255, 0, 0).red);
            assert_eq!(stops[1].color.blue, Color::rgb8(0, 0, 255).blue);
            assert_eq!(stops[0].color.alpha, halved_alpha);
            assert_eq!(stops[1].color.alpha, halved_alpha);
        }
        _ => panic!("variant changed"),
    }
}

#[test]
fn brush_alpha_factor_scales_solid_and_image() {
    let solid = Brush::Solid(Color::rgba8(1, 2, 3, 255)).with_alpha_factor(bits(0.25));
    match solid {
        Brush::Solid(c) => assert_eq!(c.alpha, (1.0f32 * 0.25).to_bits()),
        _ => panic!("variant changed"),
    }
    let image = Brush::Image(sample_image()).with_alpha_factor(bits(0.25));
    match image {
        Brush::Image(img) => assert_eq!(img.alpha, (1.0f32 * 0.25).to_bits()),
        _ => panic!("variant changed"),
    }
}

#[test]
fn brush_ref_round_trip() {
    let gradient = sample_gradient();
    assert!(BrushRef::from(&gradient).to_owned() == Brush::Gradient(gradient.clone()));
    let image = sample_image();
    assert!(BrushRef::from(&image).to_owned() == Brush::Image(image.clone()));
    let c = Color::rgb8(4, 5, 6);
    assert!(BrushRef::from(c).to_owned() == Brush::Solid(c));
}

#[test]
fn brush_ref_from_brush_borrows_each_variant() {
    let solid = Brush::Solid(Color::rgb8(1, 1, 1));
    assert!(BrushRef::from(&solid).to_owned() == solid);
    let gradient = Brush::Gradient(sample_gradient());
    assert!(BrushRef::from(&gradient).to_owned() == gradient);
    let image = Brush::Image(sample_image());
    assert!(BrushRef::from(&image).to_owned() == image);
}

#[test]
fn extend_modes_are_distinct() {
    assert_eq!(Extend::default(), Extend::Pad);
    assert_ne!(Extend::Pad, Extend::Repeat);
    assert_ne!(Extend::Repeat, Extend::Reflect);
}

#[test]
fn blob_shares_its_buffer() {
    let blob = Blob::new(vec![9, 8, 7]);
    assert_eq!(blob.len(), 3);
    assert_eq!(blob.as_slice(), &[9, 8, 7]);
    let copy = blob.clone();
    assert_eq!(copy.as_slice(), blob.as_slice());
}

#[test]
fn font_holds_data_and_index() {
    let font = Font::new(Blob::new(vec![0, 1, 2]), 7);
    assert_eq!(font.index, 7);
    assert_eq!(font.data.len(), 3);
    let copy = font.clone();
    assert_eq!(copy.index, 7);
    assert_eq!(copy.data.as_slice(), font.data.as_slice());
}

#[test]
fn image_new_is_opaque_and_equality_is_by_content() {
    let a = sample_image();
    assert_eq!(a.alpha, bits(1.0));
    assert_eq!(a.width, 1);
    assert_eq!(a.height, 1);
    let b = Image::new(Blob::new(vec![1, 2, 3, 4]), Format::Rgba8, 1, 1);
    assert!(a == b);
    let c = Image::new(Blob::new(vec![1, 2, 3, 5]), Format::Rgba8, 1, 1);
    assert!(a != c);
    let scaled = a.clone().with_alpha_factor(bits(0.5));
    assert_eq!(scaled.alpha, (1.0f32 * 0.5).to_bits());
    assert!(a.clone().with_alpha_factor(bits(1.0)) == a);
}
