//! The brush types that unify solid colors, gradients and images.

use vstd::prelude::*;

use crate::color::Color;
use crate::float32::{ONE_BITS, is_finite_bits, is_zero_bits, mul_bits};
use crate::gradient::{ColorStop, Gradient, gradient_eq_spec, stop_with_alpha_spec, stops_seq};
use crate::image::{Image, image_eq_spec};

verus! {

/// Defines how a brush is extended when the content does not fill a shape.
///
/// The consuming evaluator maps an out-of-range gradient parameter back
/// into zero to one as the mode says: padding clamps to the nearest
/// endpoint color, repeating wraps the parameter modulo one, and
/// reflecting wraps it with period two, mirrored.
#[derive(Clone, Copy, PartialEq, Eq, Debug, Structural)]
pub enum Extend {
    /// Extends the image by repeating the edge color of the brush.
    Pad,
    /// Extends the image by repeating the brush.
    Repeat,
    /// Extends the image by reflecting the brush.
    Reflect,
}

impl Default for Extend {
    /// The default extend mode pads.
    fn default() -> (r: Self)
        ensures
            r == Extend::Pad,
    {
        Extend::Pad
    }
}

/// Describes the color content of a filled or stroked shape.
///
/// See also [`BrushRef`] which can be used to avoid allocations.
#[derive(Debug)]
pub enum Brush {
    /// Solid color brush.
    Solid(Color),
    /// Gradient brush.
    Gradient(Gradient),
    /// Image brush.
    Image(Image),
}

/// Structural equality of two brushes: the same variant, with equal
/// payloads; gradients by kind, extend mode and stop sequence, images by
/// pixel bytes and fields.
pub open spec fn brush_eq_spec(a: Brush, b: Brush) -> bool {
    match (a, b) {
        (Brush::Solid(x), Brush::Solid(y)) => x == y,
        (Brush::Gradient(x), Brush::Gradient(y)) => gradient_eq_spec(x, y),
        (Brush::Image(x), Brush::Image(y)) => image_eq_spec(x, y),
        _ => false,
    }
}

/// Wrapping two gradients keeps their equality: equal gradients make
/// equal gradient brushes.
pub proof fn lemma_gradient_brush_eq(a: Gradient, b: Gradient)
    requires
        gradient_eq_spec(a, b),
    ensures
        brush_eq_spec(Brush::Gradient(a), Brush::Gradient(b)),
{
}

impl PartialEq for Brush {
    /// Compares variant and payload, bit for bit.
    fn eq(&self, other: &Self) -> (r: bool)
        ensures
            r == brush_eq_spec(*self, *other),
    {
        match (self, other) {
            (Brush::Solid(x), Brush::Solid(y)) => x == y,
            (Brush::Gradient(x), Brush::Gradient(y)) => x == y,
            (Brush::Image(x), Brush::Image(y)) => x == y,
            _ => false,
        }
    }
}

impl vstd::std_specs::cmp::PartialEqSpecImpl for Brush {
    open spec fn obeys_eq_spec() -> bool {
        true
    }

    open spec fn eq_spec(&self, other: &Self) -> bool {
        brush_eq_spec(*self, *other)
    }
}

impl Clone for Brush {
    /// The copy holds an equal payload under the same variant.
    fn clone(&self) -> (r: Self)
        ensures
            brush_eq_spec(r, *self),
    {
        match self {
            Brush::Solid(color) => Brush::Solid(*color),
            Brush::Gradient(gradient) => Brush::Gradient(gradient.clone()),
            Brush::Image(image) => Brush::Image(image.clone()),
        }
    }
}

impl Default for Brush {
    /// The default brush is the default solid color.
    fn default() -> (r: Self)
        ensures
            r == Brush::Solid(Color { red: 0, green: 0, blue: 0, alpha: ONE_BITS }),
    {
        Brush::Solid(Color::default())
    }
}

impl From<Color> for Brush {
    /// A color becomes a solid brush.
    fn from(c: Color) -> (r: Self)
        ensures
            r == Brush::Solid(c),
    {
        Brush::Solid(c)
    }
}

impl vstd::std_specs::convert::FromSpecImpl<Color> for Brush {
    open spec fn obeys_from_spec() -> bool {
        true
    }

    open spec fn from_spec(c: Color) -> Self {
        Brush::Solid(c)
    }
}

impl From<Gradient> for Brush {
    /// A gradient becomes a gradient brush.
    fn from(g: Gradient) -> (r: Self)
        ensures
            r == Brush::Gradient(g),
    {
        Brush::Gradient(g)
    }
}

impl vstd::std_specs::convert::FromSpecImpl<Gradient> for Brush {
    open spec fn obeys_from_spec() -> bool {
        true
    }

    open spec fn from_spec(g: Gradient) -> Self {
        Brush::Gradient(g)
    }
}

impl From<Image> for Brush {
    /// An image becomes an image brush.
    fn from(value: Image) -> (r: Self)
        ensures
            r == Brush::Image(value),
    {
        Brush::Image(value)
    }
}

impl vstd::std_specs::convert::FromSpecImpl<Image> for Brush {
    open spec fn obeys_from_spec() -> bool {
        true
    }

    open spec fn from_spec(value: Image) -> Self {
        Brush::Image(value)
    }
}

impl Brush {
    /// Returns the brush with the alpha component multiplied by the
    /// specified factor.
    ///
    /// A factor of one gives the brush back untouched, whatever it holds.
    /// Otherwise a solid color scales its alpha, a gradient scales the
    /// alpha of every stop's color in place, keeping offsets and order,
    /// and an image scales its alpha multiplier.
    #[must_use]
    pub fn with_alpha_factor(self, alpha: u32) -> (r: Self)
        ensures
            alpha == ONE_BITS ==> r == self,
            alpha != ONE_BITS ==> match self {
                Brush::Solid(c) => r == Brush::Solid(
                    Color { alpha: mul_bits(c.alpha, alpha), ..c },
                ),
                Brush::Gradient(g) => r matches Brush::Gradient(g2) && g2.kind == g.kind
                    && g2.extend == g.extend && stops_seq(g2.stops) == stops_seq(g.stops)
                    .map_values(|s: ColorStop| stop_with_alpha_spec(s, alpha)),
                Brush::Image(img) => r == Brush::Image(
                    Image { alpha: mul_bits(img.alpha, alpha), ..img },
                ),
            },
            alpha != ONE_BITS && is_zero_bits(alpha) ==> match self {
                Brush::Solid(c) => r matches Brush::Solid(c2) && (is_finite_bits(c.alpha)
                    ==> is_zero_bits(c2.alpha)),
                Brush::Gradient(g) => r matches Brush::Gradient(g2) && forall|k: int|
                    0 <= k < stops_seq(g.stops).len() && is_finite_bits(
                        #[trigger] stops_seq(g.stops)[k].color.alpha,
                    ) ==> is_zero_bits(stops_seq(g2.stops)[k].color.alpha),
                Brush::Image(img) => r matches Brush::Image(i2) && (is_finite_bits(img.alpha)
                    ==> is_zero_bits(i2.alpha)),
            },
    {
        if alpha == ONE_BITS {
            self
        } else {
            match self {
                Brush::Solid(color) => Brush::Solid(color.with_alpha_factor(alpha)),
                Brush::Gradient(mut gradient) => {
                    let ghost orig = stops_seq(gradient.stops);
                    let ghost kind0 = gradient.kind;
                    let ghost extend0 = gradient.extend;
                    let n = gradient.stops.len();
                    let mut i: usize = 0;
                    while i < n
                        invariant
                            n == orig.len(),
                            i <= n,
                            gradient.kind == kind0,
                            gradient.extend == extend0,
                            stops_seq(gradient.stops).len() == orig.len(),
                            forall|k: int|
                                0 <= k < i ==> stops_seq(gradient.stops)[k] == stop_with_alpha_spec(
                                    orig[k],
                                    alpha,
                                ),
                            forall|k: int|
                                0 <= k < i && is_zero_bits(alpha) && is_finite_bits(
                                    #[trigger] orig[k].color.alpha,
                                ) ==> is_zero_bits(stops_seq(gradient.stops)[k].color.alpha),
                            forall|k: int| i <= k < n ==> stops_seq(gradient.stops)[k] == orig[k],
                        decreases n - i,
                    {
                        let s = gradient.stops.get(i);
                        gradient.stops.set(i, s.with_alpha_factor(alpha));
                        i += 1;
                    }
                    proof {
                        assert(stops_seq(gradient.stops) =~= orig.map_values(
                            |s: ColorStop| stop_with_alpha_spec(s, alpha),
                        ));
                    }
                    Brush::Gradient(gradient)
                },
                Brush::Image(image) => Brush::Image(image.with_alpha_factor(alpha)),
            }
        }
    }
}

/// Reference to a [brush](Brush).
///
/// This is useful for methods that would like to accept brushes by
/// reference, so that a large gradient or an image need not be copied at
/// the call boundary; ownership is taken only through [`BrushRef::to_owned`].
#[derive(Clone, Copy, Debug)]
pub enum BrushRef<'a> {
    /// Solid color brush.
    Solid(Color),
    /// Gradient brush.
    Gradient(&'a Gradient),
    /// Image brush.
    Image(&'a Image),
}

impl BrushRef<'_> {
    /// Converts the reference to an owned brush: the solid color is
    /// copied, a gradient or an image payload is cloned only here.
    #[must_use]
    pub fn to_owned(&self) -> (r: Brush)
        ensures
            match *self {
                BrushRef::Solid(c) => r == Brush::Solid(c),
                BrushRef::Gradient(g) => r matches Brush::Gradient(g2)
                    && gradient_eq_spec(g2, *g),
                BrushRef::Image(img) => r matches Brush::Image(i2) && image_eq_spec(i2, *img),
            },
    {
        match self {
            BrushRef::Solid(color) => Brush::Solid(*color),
            BrushRef::Gradient(gradient) => Brush::Gradient((*gradient).clone()),
            BrushRef::Image(image) => Brush::Image((*image).clone()),
        }
    }
}

impl<'a> From<Color> for BrushRef<'a> {
    /// A color becomes a solid brush reference.
    fn from(color: Color) -> (r: Self)
        ensures
            r == BrushRef::<'a>::Solid(color),
    {
        BrushRef::Solid(color)
    }
}

impl<'a> vstd::std_specs::convert::FromSpecImpl<Color> for BrushRef<'a> {
    open spec fn obeys_from_spec() -> bool {
        true
    }

    open spec fn from_spec(color: Color) -> Self {
        BrushRef::Solid(color)
    }
}

impl<'a> From<&'a Gradient> for BrushRef<'a> {
    /// A borrowed gradient becomes a gradient brush reference.
    fn from(gradient: &'a Gradient) -> (r: Self)
        ensures
            r == BrushRef::Gradient(gradient),
    {
        BrushRef::Gradient(gradient)
    }
}

impl<'a> vstd::std_specs::convert::FromSpecImpl<&'a Gradient> for BrushRef<'a> {
    open spec fn obeys_from_spec() -> bool {
        true
    }

    open spec fn from_spec(gradient: &'a Gradient) -> Self {
        BrushRef::Gradient(gradient)
    }
}

impl<'a> From<&'a Image> for BrushRef<'a> {
    /// A borrowed image becomes an image brush reference.
    fn from(image: &'a Image) -> (r: Self)
        ensures
            r == BrushRef::Image(image),
    {
        BrushRef::Image(image)
    }
}

impl<'a> vstd::std_specs::convert::FromSpecImpl<&'a Image> for BrushRef<'a> {
    open spec fn obeys_from_spec() -> bool {
        true
    }

    open spec fn from_spec(image: &'a Image) -> Self {
        BrushRef::Image(image)
    }
}

impl<'a> From<&'a Brush> for BrushRef<'a> {
    /// A borrowed brush becomes the brush reference with the same variant,
    /// borrowing the payload.
    fn from(brush: &'a Brush) -> (r: Self)
        ensures
            match brush {
                Brush::Solid(c) => r == BrushRef::<'a>::Solid(*c),
                Brush::Gradient(g) => r matches BrushRef::Gradient(g2) && g2 == g,
                Brush::Image(img) => r matches BrushRef::Image(i2) && i2 == img,
            },
    {
        match brush {
            Brush::Solid(color) => BrushRef::Solid(*color),
            Brush::Gradient(gradient) => BrushRef::Gradient(gradient),
            Brush::Image(image) => BrushRef::Image(image),
        }
    }
}

impl<'a> vstd::std_specs::convert::FromSpecImpl<&'a Brush> for BrushRef<'a> {
    open spec fn obeys_from_spec() -> bool {
        true
    }

    open spec fn from_spec(brush: &'a Brush) -> Self {
        match brush {
            Brush::Solid(c) => BrushRef::Solid(*c),
            Brush::Gradient(g) => BrushRef::Gradient(g),
            Brush::Image(img) => BrushRef::Image(img),
        }
    }
}

} // verus!
