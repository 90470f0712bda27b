//! A vocabulary of 2D graphics value types — colors, blend modes, images,
//! fonts, clip shapes — together with the derived computations a renderer
//! needs before it draws: conservative clip bounds under affine transforms
//! and stroke expansion, finiteness and `NaN` screening of geometry, and
//! CSS-style color parsing.
//!
//! Geometry is carried by [`Scalar`], an exact fixed-point number extended
//! with infinities and a `NaN` marker, so every bounds computation and
//! every finiteness predicate in this crate is specified and machine-checked
//! end to end. The contracts state, for each operation, precisely which
//! value it returns; the clip types additionally come with proved laws
//! relating finiteness, `NaN` propagation and bounds.

mod blend;
mod blob;
mod brush;
mod clip;
mod color;
mod extrema;
mod font;
mod geometry;
mod gradient;
mod image;
mod parse;
mod path;
mod scalar;
mod stroke;
mod style;

pub use blend::{BlendMode, Compose, Mix};
pub use blob::Blob;
pub use brush::Extend;
pub use clip::{Clip, ClipGeometry};
pub use color::{color_from_4bit_hex, get_4bit_hex_channels, hex_from_ascii_byte, parse_color, Color};
pub use font::Font;
pub use geometry::{Affine, Point, Rect, RoundedRect, RoundedRectRadii};
pub use gradient::InterpolationAlphaSpace;
pub use image::{ImageAlphaType, ImageData, ImageFormat, ImageQuality};
pub use parse::ParseError;
pub use path::{BezPath, PathEl};
pub use scalar::Scalar;
pub use stroke::{Cap, Join, Stroke};
pub use style::{Fill, Style, StyleRef};
