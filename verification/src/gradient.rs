//! Color stops, the stop collection and the gradient types.

use vstd::prelude::*;

use core::cmp::Ordering;

use crate::brush::Extend;
use crate::color::Color;
use crate::float32::{
    INF_BITS, ONE_BITS, SIGN_BITS, div_bits, f32_div, from_u64_bits, is_finite_bits, is_nan_bits,
    is_zero_bits, mul_bits, sign_negative_bits, u64_to_f32,
};
use crate::geometry::Point;

verus! {

/// Offset and color of a transition point in a [gradient](Gradient).
///
/// Equality and hashing go over the bit patterns of the offset and of every
/// channel, never over the encoded numbers: two stops are interchangeable
/// as cache keys exactly when every word matches. The order below, in
/// contrast, compares offsets as numbers, so a NaN offset is ordered with
/// nothing and the two zeros are one number.
#[derive(Clone, Copy, PartialEq, Eq, Hash, Debug, Structural)]
pub struct ColorStop {
    /// Normalized offset of the stop, as binary32 bits.
    pub offset: u32,
    /// Color at the specified offset.
    pub color: Color,
}

/// The signed order key of a binary32 bit pattern: the magnitude, negated
/// when the sign bit is set, so that key order is numeric order.
pub open spec fn f32_key(b: u32) -> int {
    if b >= SIGN_BITS {
        -((b - SIGN_BITS) as int)
    } else {
        b as int
    }
}

/// Numeric comparison of two binary32 bit patterns: a NaN compares with
/// nothing, and the two zeros are equal.
pub open spec fn f32_cmp_spec(a: u32, b: u32) -> Option<Ordering> {
    if is_nan_bits(a) || is_nan_bits(b) {
        None
    } else if f32_key(a) == f32_key(b) {
        Some(Ordering::Equal)
    } else if f32_key(a) < f32_key(b) {
        Some(Ordering::Less)
    } else {
        Some(Ordering::Greater)
    }
}

impl PartialOrd for ColorStop {
    /// Orders two stops by their offsets as numbers.
    fn partial_cmp(&self, other: &Self) -> (r: Option<Ordering>)
        ensures
            r == f32_cmp_spec(self.offset, other.offset),
    {
        let a = self.offset;
        let b = other.offset;
        let abs_a = if a >= SIGN_BITS {
            a - SIGN_BITS
        } else {
            a
        };
        let abs_b = if b >= SIGN_BITS {
            b - SIGN_BITS
        } else {
            b
        };
        if abs_a > INF_BITS || abs_b > INF_BITS {
            None
        } else if abs_a == 0 && abs_b == 0 {
            Some(Ordering::Equal)
        } else if a == b {
            Some(Ordering::Equal)
        } else {
            let a_neg = a >= SIGN_BITS;
            let b_neg = b >= SIGN_BITS;
            if a_neg != b_neg {
                if a_neg {
                    Some(Ordering::Less)
                } else {
                    Some(Ordering::Greater)
                }
            } else if a_neg {
                if abs_a > abs_b {
                    Some(Ordering::Less)
                } else {
                    Some(Ordering::Greater)
                }
            } else {
                if abs_a < abs_b {
                    Some(Ordering::Less)
                } else {
                    Some(Ordering::Greater)
                }
            }
        }
    }
}

impl vstd::std_specs::cmp::PartialOrdSpecImpl for ColorStop {
    open spec fn obeys_partial_cmp_spec() -> bool {
        true
    }

    open spec fn partial_cmp_spec(&self, other: &Self) -> Option<Ordering> {
        f32_cmp_spec(self.offset, other.offset)
    }
}

impl ColorStop {
    /// Returns the color stop with the alpha component multiplied by the
    /// given factor; the offset and the other channels are kept, and a
    /// factor of one changes nothing.
    #[must_use]
    pub fn with_alpha_factor(self, alpha: u32) -> (r: Self)
        ensures
            r == stop_with_alpha_spec(self, alpha),
            alpha == ONE_BITS && !is_nan_bits(self.color.alpha) ==> r == self,
            is_zero_bits(alpha) && is_finite_bits(self.color.alpha) ==> is_zero_bits(
                r.color.alpha,
            ),
    {
        ColorStop { offset: self.offset, color: self.color.with_alpha_factor(alpha) }
    }
}

/// The stop with its color's alpha word multiplied by the factor.
pub open spec fn stop_with_alpha_spec(s: ColorStop, alpha: u32) -> ColorStop {
    ColorStop {
        offset: s.offset,
        color: Color { alpha: mul_bits(s.color.alpha, alpha), ..s.color },
    }
}

impl From<(u32, Color)> for ColorStop {
    /// Reads an offset word and a color as a stop.
    fn from(pair: (u32, Color)) -> (r: Self)
        ensures
            r == (ColorStop { offset: pair.0, color: pair.1 }),
    {
        ColorStop { offset: pair.0, color: pair.1 }
    }
}

impl vstd::std_specs::convert::FromSpecImpl<(u32, Color)> for ColorStop {
    open spec fn obeys_from_spec() -> bool {
        true
    }

    open spec fn from_spec(pair: (u32, Color)) -> Self {
        ColorStop { offset: pair.0, color: pair.1 }
    }
}

/// Two construction paths meet: reading an offset and color pair as a
/// stop yields exactly the struct with those fields, so stops built either
/// way are equal, bit for bit, and hash alike.
pub proof fn lemma_stop_construction_paths(offset: u32, color: Color)
    ensures
        <ColorStop as vstd::std_specs::convert::FromSpec<(u32, Color)>>::from_spec(
            (offset, color),
        ) == (ColorStop { offset, color }),
{
}

impl Default for ColorStop {
    /// The default stop sits at offset zero with the default color.
    fn default() -> (r: Self)
        ensures
            r == (ColorStop {
                offset: 0,
                color: Color { red: 0, green: 0, blue: 0, alpha: ONE_BITS },
            }),
    {
        ColorStop { offset: 0, color: Color::default() }
    }
}

/// Collection of color stops.
///
/// Backed by a `smallvec::SmallVec` with inline room for four stops, which
/// Verus cannot look into: what the collection holds is named by
/// [`stops_seq`], and the contract of every operation speaks over that
/// sequence.
#[verifier::external_body]
#[derive(Debug)]
pub struct ColorStops {
    inner: smallvec::SmallVec<[ColorStop; 4]>,
}

/// The stops a collection holds, in order.
pub uninterp spec fn stops_seq(v: ColorStops) -> Seq<ColorStop>;

impl ColorStops {
    /// Relies on smallvec::SmallVec::new: the fresh collection is empty.
    #[verifier::external_body]
    pub fn new() -> (r: Self)
        ensures
            stops_seq(r) == Seq::<ColorStop>::empty(),
    {
        ColorStops { inner: smallvec::SmallVec::new() }
    }

    /// Relies on smallvec::SmallVec::len: the count of held items.
    #[verifier::external_body]
    pub fn len(&self) -> (r: usize)
        ensures
            r == stops_seq(*self).len(),
    {
        self.inner.len()
    }

    /// Relies on smallvec's indexing, which yields the item at the place.
    #[verifier::external_body]
    pub fn get(&self, index: usize) -> (r: ColorStop)
        requires
            index < stops_seq(*self).len(),
        ensures
            r == stops_seq(*self)[index as int],
    {
        self.inner[index]
    }

    /// Relies on smallvec::SmallVec::push: the item goes to the end and
    /// the rest stays.
    #[verifier::external_body]
    pub fn push(&mut self, stop: ColorStop)
        ensures
            stops_seq(*final(self)) == stops_seq(*old(self)).push(stop),
    {
        self.inner.push(stop);
    }

    /// Relies on smallvec's mutable indexing: the item at the place is
    /// replaced and the rest stays.
    #[verifier::external_body]
    pub fn set(&mut self, index: usize, stop: ColorStop)
        requires
            index < stops_seq(*old(self)).len(),
        ensures
            stops_seq(*final(self)) == stops_seq(*old(self)).update(index as int, stop),
    {
        self.inner[index] = stop;
    }

    /// Relies on smallvec::SmallVec::clear: nothing is held afterwards.
    #[verifier::external_body]
    pub fn clear(&mut self)
        ensures
            stops_seq(*final(self)) == Seq::<ColorStop>::empty(),
    {
        self.inner.clear();
    }

    /// Copies the held stops into a plain vector, in order.
    pub fn to_vec(&self) -> (r: Vec<ColorStop>)
        ensures
            r@ == stops_seq(*self),
    {
        let n = self.len();
        let mut out: Vec<ColorStop> = Vec::new();
        let mut i: usize = 0;
        while i < n
            invariant
                n == stops_seq(*self).len(),
                i <= n,
                out@ == stops_seq(*self).take(i as int),
            decreases n - i,
        {
            out.push(self.get(i));
            proof {
                assert(stops_seq(*self).take(i as int).push(stops_seq(*self)[i as int])
                    =~= stops_seq(*self).take(i + 1));
            }
            i += 1;
        }
        proof {
            assert(stops_seq(*self).take(n as int) =~= stops_seq(*self));
        }
        out
    }
}

impl Clone for ColorStops {
    /// Relies on smallvec's clone, which copies the held stops in order.
    #[verifier::external_body]
    fn clone(&self) -> (r: Self)
        ensures
            stops_seq(r) == stops_seq(*self),
    {
        ColorStops { inner: self.inner.clone() }
    }
}

/// Relies on smallvec's equality, which compares the held stops in order
/// with [`ColorStop`]'s bit-pattern equality.
#[verifier::external_body]
fn stops_inner_eq(a: &ColorStops, b: &ColorStops) -> (r: bool)
    ensures
        r == (stops_seq(*a) == stops_seq(*b)),
{
    a.inner == b.inner
}

impl PartialEq for ColorStops {
    /// Compares the held stop sequences, bit for bit.
    fn eq(&self, other: &Self) -> (r: bool)
        ensures
            r == (stops_seq(*self) == stops_seq(*other)),
    {
        stops_inner_eq(self, other)
    }
}

impl vstd::std_specs::cmp::PartialEqSpecImpl for ColorStops {
    open spec fn obeys_eq_spec() -> bool {
        true
    }

    open spec fn eq_spec(&self, other: &Self) -> bool {
        stops_seq(*self) == stops_seq(*other)
    }
}

impl Default for ColorStops {
    /// The default collection is empty.
    fn default() -> (r: Self)
        ensures
            stops_seq(r) == Seq::<ColorStop>::empty(),
    {
        ColorStops::new()
    }
}

/// Properties for the supported [gradient](Gradient) types.
#[derive(Clone, Copy, PartialEq, Eq, Debug, Structural)]
pub enum GradientKind {
    /// Gradient that transitions between two or more colors along a line.
    Linear {
        /// Starting point.
        start: Point,
        /// Ending point.
        end: Point,
    },
    /// Gradient that transitions between two or more colors that radiate
    /// from an origin.
    Radial {
        /// Center of start circle.
        start_center: Point,
        /// Radius of start circle, binary32 bits.
        start_radius: u32,
        /// Center of end circle.
        end_center: Point,
        /// Radius of end circle, binary32 bits.
        end_radius: u32,
    },
    /// Gradient that transitions between two or more colors that rotate
    /// around a center point.
    Sweep {
        /// Center point.
        center: Point,
        /// Start angle of the sweep, counter-clockwise of the x-axis, in
        /// radians as binary32 bits.
        start_angle: u32,
        /// End angle of the sweep, counter-clockwise of the x-axis, in
        /// radians as binary32 bits.
        end_angle: u32,
    },
}

/// Definition of a gradient that transitions between two or more colors.
///
/// The stop sequence is kept exactly as supplied: this layer neither sorts
/// nor validates offsets, and out-of-order or out-of-range offsets are the
/// caller's responsibility. A gradient with one stop or none is degenerate
/// but legal.
#[derive(Debug)]
pub struct Gradient {
    /// Kind and properties of the gradient.
    pub kind: GradientKind,
    /// Extend mode.
    pub extend: Extend,
    /// Color stop collection.
    pub stops: ColorStops,
}

/// Structural equality of two gradients: same kind, same extend mode, and
/// the same stop sequence, bit for bit.
pub open spec fn gradient_eq_spec(a: Gradient, b: Gradient) -> bool {
    &&& a.kind == b.kind
    &&& a.extend == b.extend
    &&& stops_seq(a.stops) == stops_seq(b.stops)
}

impl PartialEq for Gradient {
    /// Compares kind, extend mode and the stop sequence, bit for bit.
    fn eq(&self, other: &Self) -> (r: bool)
        ensures
            r == gradient_eq_spec(*self, *other),
    {
        self.kind == other.kind && self.extend == other.extend && self.stops == other.stops
    }
}

impl vstd::std_specs::cmp::PartialEqSpecImpl for Gradient {
    open spec fn obeys_eq_spec() -> bool {
        true
    }

    open spec fn eq_spec(&self, other: &Self) -> bool {
        gradient_eq_spec(*self, *other)
    }
}

impl Clone for Gradient {
    /// The copy holds the same kind, extend mode and stop sequence.
    fn clone(&self) -> (r: Self)
        ensures
            gradient_eq_spec(r, *self),
    {
        Gradient { kind: self.kind, extend: self.extend, stops: self.stops.clone() }
    }
}

impl Default for Gradient {
    /// The default gradient runs along a line from the origin to the
    /// origin, pads, and holds no stops.
    fn default() -> (r: Self)
        ensures
            r.kind == (GradientKind::Linear {
                start: Point { x: 0, y: 0 },
                end: Point { x: 0, y: 0 },
            }),
            r.extend == Extend::Pad,
            stops_seq(r.stops) == Seq::<ColorStop>::empty(),
    {
        Gradient {
            kind: GradientKind::Linear { start: Point::default(), end: Point::default() },
            extend: Extend::default(),
            stops: ColorStops::new(),
        }
    }
}

impl Gradient {
    /// Creates a new linear gradient for the specified start and end
    /// points, padding, with no stops yet.
    pub fn new_linear(start: Point, end: Point) -> (r: Self)
        ensures
            r.kind == (GradientKind::Linear { start, end }),
            r.extend == Extend::Pad,
            stops_seq(r.stops) == Seq::<ColorStop>::empty(),
    {
        Gradient {
            kind: GradientKind::Linear { start, end },
            extend: Extend::default(),
            stops: ColorStops::new(),
        }
    }

    /// Creates a new radial gradient for the specified center point and
    /// radius: both circles sit at the center, the inner radius is zero.
    pub fn new_radial(center: Point, radius: u32) -> (r: Self)
        ensures
            r.kind == (GradientKind::Radial {
                start_center: center,
                start_radius: 0,
                end_center: center,
                end_radius: radius,
            }),
            r.extend == Extend::Pad,
            stops_seq(r.stops) == Seq::<ColorStop>::empty(),
    {
        Gradient {
            kind: GradientKind::Radial {
                start_center: center,
                start_radius: 0,
                end_center: center,
                end_radius: radius,
            },
            extend: Extend::default(),
            stops: ColorStops::new(),
        }
    }

    /// Creates a new two point radial gradient for the specified center
    /// points and radii.
    pub fn new_two_point_radial(
        start_center: Point,
        start_radius: u32,
        end_center: Point,
        end_radius: u32,
    ) -> (r: Self)
        ensures
            r.kind == (GradientKind::Radial { start_center, start_radius, end_center, end_radius }),
            r.extend == Extend::Pad,
            stops_seq(r.stops) == Seq::<ColorStop>::empty(),
    {
        Gradient {
            kind: GradientKind::Radial { start_center, start_radius, end_center, end_radius },
            extend: Extend::default(),
            stops: ColorStops::new(),
        }
    }

    /// Creates a new sweep gradient for the specified center point, start
    /// and end angles.
    pub fn new_sweep(center: Point, start_angle: u32, end_angle: u32) -> (r: Self)
        ensures
            r.kind == (GradientKind::Sweep { center, start_angle, end_angle }),
            r.extend == Extend::Pad,
            stops_seq(r.stops) == Seq::<ColorStop>::empty(),
    {
        Gradient {
            kind: GradientKind::Sweep { center, start_angle, end_angle },
            extend: Extend::default(),
            stops: ColorStops::new(),
        }
    }

    /// Builder method for setting the gradient extend mode.
    #[must_use]
    pub fn with_extend(self, mode: Extend) -> (r: Self)
        ensures
            r.kind == self.kind,
            r.extend == mode,
            stops_seq(r.stops) == stops_seq(self.stops),
    {
        Gradient { extend: mode, ..self }
    }

    /// Builder method for setting the color stop collection: the old stops
    /// are dropped and the source's stops take their place, in order.
    #[must_use]
    pub fn with_stops<T: ColorStopsSource>(self, stops: T) -> (r: Self)
        ensures
            r.kind == self.kind,
            r.extend == self.extend,
            stops_seq(r.stops) == stops.stop_seq(),
    {
        let Gradient { kind, extend, stops: mut held } = self;
        held.clear();
        stops.collect_stops(&mut held);
        Gradient { kind, extend, stops: held }
    }
}

/// Trait for types that represent a source of color stops.
pub trait ColorStopsSource {
    /// The stops this source denotes, in order.
    spec fn stop_seq(&self) -> Seq<ColorStop>;

    /// Appends the denoted stops to the collection, in order, after
    /// whatever it already holds.
    fn collect_stops(&self, vec: &mut ColorStops)
        ensures
            stops_seq(*final(vec)) == stops_seq(*old(vec)) + self.stop_seq(),
    ;
}

impl<'a> ColorStopsSource for &'a [ColorStop] {
    /// A slice of stops denotes itself.
    open spec fn stop_seq(&self) -> Seq<ColorStop> {
        self@
    }

    fn collect_stops(&self, vec: &mut ColorStops) {
        let n = self.len();
        let mut i: usize = 0;
        while i < n
            invariant
                n == self@.len(),
                i <= n,
                stops_seq(*vec) == stops_seq(*old(vec)) + self@.take(i as int),
            decreases n - i,
        {
            vec.push(self[i]);
            proof {
                assert(stops_seq(*old(vec)) + self@.take(i as int).push(self@[i as int])
                    =~= stops_seq(*old(vec)) + self@.take(i + 1));
            }
            i += 1;
        }
        proof {
            assert(stops_seq(*old(vec)) + self@.take(n as int) =~= stops_seq(*old(vec)) + self@);
        }
    }
}

impl<'a> ColorStopsSource for &'a [(u32, Color)] {
    /// A slice of offset and color pairs denotes one stop per pair.
    open spec fn stop_seq(&self) -> Seq<ColorStop> {
        self@.map_values(|p: (u32, Color)| ColorStop { offset: p.0, color: p.1 })
    }

    fn collect_stops(&self, vec: &mut ColorStops) {
        let n = self.len();
        let mut i: usize = 0;
        while i < n
            invariant
                n == self@.len(),
                i <= n,
                stops_seq(*vec) == stops_seq(*old(vec)) + self.stop_seq().take(i as int),
            decreases n - i,
        {
            let pair = self[i];
            vec.push(ColorStop { offset: pair.0, color: pair.1 });
            proof {
                assert(stops_seq(*old(vec)) + self.stop_seq().take(i as int).push(
                    self.stop_seq()[i as int],
                ) =~= stops_seq(*old(vec)) + self.stop_seq().take(i + 1));
            }
            i += 1;
        }
        proof {
            assert(stops_seq(*old(vec)) + self.stop_seq().take(n as int) =~= stops_seq(*old(vec))
                + self.stop_seq());
        }
    }
}

impl<const N: usize> ColorStopsSource for [ColorStop; N] {
    /// An array of stops denotes itself.
    open spec fn stop_seq(&self) -> Seq<ColorStop> {
        self@
    }

    fn collect_stops(&self, vec: &mut ColorStops) {
        let s: &[ColorStop] = self.as_slice();
        (&s).collect_stops(vec);
    }
}

impl<const N: usize> ColorStopsSource for [(u32, Color); N] {
    /// An array of offset and color pairs denotes one stop per pair.
    open spec fn stop_seq(&self) -> Seq<ColorStop> {
        self@.map_values(|p: (u32, Color)| ColorStop { offset: p.0, color: p.1 })
    }

    fn collect_stops(&self, vec: &mut ColorStops) {
        let s: &[(u32, Color)] = self.as_slice();
        (&s).collect_stops(vec);
    }
}

/// The offset the stop at the given place gets when offsets are spread
/// evenly: the place over the denominator, as binary32 numbers.
pub open spec fn synth_offset_bits(i: int, denom: int) -> u32 {
    div_bits(from_u64_bits(i as u64), from_u64_bits(denom as u64))
}

/// The denominator that spreads a count of colors over zero to one: one
/// less than the count, and never less than one.
pub open spec fn synth_denom(n: int) -> int {
    if n <= 1 {
        1
    } else {
        n - 1
    }
}

/// The stops a bare color sequence denotes: one stop per color, in order,
/// with offsets spread evenly over zero to one.
pub open spec fn synth_stops_spec(colors: Seq<Color>) -> Seq<ColorStop> {
    Seq::new(
        colors.len(),
        |i: int| ColorStop {
            offset: synth_offset_bits(i, synth_denom(colors.len() as int)),
            color: colors[i],
        },
    )
}

impl<'a> ColorStopsSource for &'a [Color] {
    /// A slice of bare colors denotes stops with evenly spread offsets.
    open spec fn stop_seq(&self) -> Seq<ColorStop> {
        synth_stops_spec(self@)
    }

    /// Beyond the general contract: the first spread offset encodes zero
    /// and, past a single color, the last encodes one.
    fn collect_stops(&self, vec: &mut ColorStops)
        ensures
            self@.len() >= 1 ==> self.stop_seq()[0].offset == 0,
            self@.len() >= 2 ==> self.stop_seq()[self@.len() - 1].offset == ONE_BITS,
    {
        let n = self.len();
        if n == 0 {
            proof {
                assert(stops_seq(*vec) =~= stops_seq(*old(vec)) + self.stop_seq());
            }
            return;
        }
        let denom: usize = if n - 1 > 1 {
            n - 1
        } else {
            1
        };
        let den = u64_to_f32(denom as u64);
        let mut i: usize = 0;
        while i < n
            invariant
                n == self@.len() && n >= 1,
                i <= n,
                denom == synth_denom(n as int),
                den == from_u64_bits(denom as u64),
                is_finite_bits(den) && !sign_negative_bits(den) && !is_zero_bits(den),
                stops_seq(*vec) == stops_seq(*old(vec)) + self.stop_seq().take(i as int),
                i >= 1 ==> self.stop_seq()[0].offset == 0,
                n >= 2 && i == n ==> self.stop_seq()[n - 1].offset == ONE_BITS,
            decreases n - i,
        {
            let num = u64_to_f32(i as u64);
            let offset = f32_div(num, den);
            vec.push(ColorStop { offset, color: self[i] });
            proof {
                assert(offset == self.stop_seq()[i as int].offset);
                assert(stops_seq(*old(vec)) + self.stop_seq().take(i as int).push(
                    self.stop_seq()[i as int],
                ) =~= stops_seq(*old(vec)) + self.stop_seq().take(i + 1));
            }
            i += 1;
        }
        proof {
            assert(stops_seq(*old(vec)) + self.stop_seq().take(n as int) =~= stops_seq(*old(vec))
                + self.stop_seq());
        }
    }
}

impl<const N: usize> ColorStopsSource for [Color; N] {
    /// An array of bare colors denotes stops with evenly spread offsets.
    open spec fn stop_seq(&self) -> Seq<ColorStop> {
        synth_stops_spec(self@)
    }

    fn collect_stops(&self, vec: &mut ColorStops) {
        let s: &[Color] = self.as_slice();
        (&s).collect_stops(vec);
    }
}

} // verus!
