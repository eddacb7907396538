//! Paint sources for a 2D rendering pipeline: colors, gradients and brushes.
//!
//! The crate gives a renderer one unambiguous, bit-precise notion of what a
//! fill or stroke is. A [`Color`] holds four linear-light channels, a
//! [`Gradient`] holds a geometry together with a sequence of color stops, and
//! a [`Brush`] unifies solid colors, gradients and images behind one type,
//! with [`BrushRef`] as its non-owning counterpart for call sites that must
//! not copy.
//!
//! Every channel, offset, radius and angle is carried as the bit pattern of
//! an IEEE 754 binary32 value (binary64 for point coordinates), held in an
//! unsigned integer. Equality and hashing are therefore exact over bit
//! patterns, which is what makes these types usable as cache and
//! deduplication keys: two values are interchangeable to a renderer exactly
//! when they are equal here. Distinct NaN encodings, and positive and
//! negative zero, are deliberately told apart. A caller moves between the
//! machine's floats and these words at the boundary with the standard
//! to-bits and from-bits operations.

mod blob;
mod brush;
mod color;
mod float32;
mod font;
mod geometry;
mod gradient;
mod image;
mod named;

pub use blob::Blob;
pub use brush::{Brush, BrushRef, Extend};
pub use color::{Color, get_4bit_hex_channels, hex_from_ascii_byte};
pub use font::Font;
pub use geometry::Point;
pub use gradient::{ColorStop, ColorStops, ColorStopsSource, Gradient, GradientKind};
pub use image::{Format, Image};
