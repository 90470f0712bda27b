use vstd::prelude::*;

use crate::blob::Blob;

verus! {

/// Defines the pixel format of an [image](ImageData).
#[derive(Clone, Copy, Debug, PartialEq, Eq, Structural)]
#[non_exhaustive]
pub enum ImageFormat {
    /// 32-bit RGBA with 8-bit channels.
    Rgba8,
    /// 32-bit BGRA with 8-bit channels.
    Bgra8,
}

impl ImageFormat {
    /// Returns the required size in bytes for an image in this format of
    /// the given dimensions: four bytes per pixel.
    ///
    /// A result of `None` indicates an overflow in the size calculation.
    pub fn size_in_bytes(self, width: u32, height: u32) -> (r: Option<usize>)
        ensures
            r == spec_size_in_bytes(self, width, height),
    {
        match self {
            Self::Rgba8 | Self::Bgra8 => {
                match 4usize.checked_mul(width as usize) {
                    Some(x) => {
                        proof {
                            assert((x as int) * (height as int) == 4 * (width as int) * (
                            height as int)) by (nonlinear_arith)
                                requires
                                    x == 4 * (width as int),
                            ;
                        }
                        x.checked_mul(height as usize)
                    },
                    None => None,
                }
            },
        }
    }
}

/// The byte size of an image, when `4 * width * height` fits in `usize`;
/// `None` as soon as a step of the product overflows.
pub open spec fn spec_size_in_bytes(format: ImageFormat, width: u32, height: u32) -> Option<
    usize,
> {
    if 4 * (width as int) > usize::MAX as int {
        None
    } else if 4 * (width as int) * (height as int) > usize::MAX as int {
        None
    } else {
        Some((4 * (width as int) * (height as int)) as usize)
    }
}

/// Handling of the alpha channel in image pixels.
#[derive(Clone, Copy, Debug, PartialEq, Eq, Structural)]
pub enum ImageAlphaType {
    /// Image has a separate alpha channel (also called straight or
    /// unpremultiplied alpha).
    Alpha,
    /// Image has colors with premultiplied alpha.
    AlphaPremultiplied,
}

/// Defines the desired quality for sampling an image.
#[derive(Clone, Copy, Debug, PartialEq, Eq, Structural)]
pub enum ImageQuality {
    /// Lowest quality with best performance characteristics, typically
    /// nearest-neighbor sampling.
    Low,
    /// Medium quality with reasonable performance characteristics,
    /// typically bilinear sampling.
    Medium,
    /// Highest quality with worst performance characteristics, typically
    /// bicubic sampling.
    High,
}

impl Default for ImageQuality {
    /// The default quality is medium.
    fn default() -> (r: Self)
        ensures
            r == ImageQuality::Medium,
    {
        ImageQuality::Medium
    }
}

impl ImageFormat {
    /// The byte encoding this pixel format.
    pub fn into_integer(self) -> (r: u8)
        ensures
            r == spec_image_format_integer(self),
    {
        match self {
            ImageFormat::Rgba8 => 0,
            ImageFormat::Bgra8 => 1,
        }
    }

    /// The pixel format encoded by the byte, if any.
    pub fn from_integer(value: u8) -> (r: Option<ImageFormat>)
        ensures
            r == spec_image_format_from_integer(value),
    {
        match value {
            0 => Some(ImageFormat::Rgba8),
            1 => Some(ImageFormat::Bgra8),
            _ => None,
        }
    }

    /// Does the byte encode a pixel format?
    pub fn is_valid_bit_pattern(bits: &u8) -> (r: bool)
        ensures
            r == (spec_image_format_from_integer(*bits) is Some),
    {
        *bits <= 1
    }

    /// The pixel format encoded by the zero byte.
    pub fn zeroed() -> (r: Self)
        ensures
            r == ImageFormat::Rgba8,
    {
        ImageFormat::Rgba8
    }
}

/// The byte encoding of a pixel format.
pub open spec fn spec_image_format_integer(v: ImageFormat) -> u8 {
    match v {
        ImageFormat::Rgba8 => 0u8,
        ImageFormat::Bgra8 => 1u8,
    }
}

/// The pixel format a byte encodes, if any.
pub open spec fn spec_image_format_from_integer(value: u8) -> Option<ImageFormat> {
    if value == 0 {
        Some(ImageFormat::Rgba8)
    } else if value == 1 {
        Some(ImageFormat::Bgra8)
    } else {
        None
    }
}

impl ImageAlphaType {
    /// The byte encoding this alpha encoding.
    pub fn into_integer(self) -> (r: u8)
        ensures
            r == spec_image_alpha_type_integer(self),
    {
        match self {
            ImageAlphaType::Alpha => 0,
            ImageAlphaType::AlphaPremultiplied => 1,
        }
    }

    /// The alpha encoding encoded by the byte, if any.
    pub fn from_integer(value: u8) -> (r: Option<ImageAlphaType>)
        ensures
            r == spec_image_alpha_type_from_integer(value),
    {
        match value {
            0 => Some(ImageAlphaType::Alpha),
            1 => Some(ImageAlphaType::AlphaPremultiplied),
            _ => None,
        }
    }

    /// Does the byte encode an alpha encoding?
    pub fn is_valid_bit_pattern(bits: &u8) -> (r: bool)
        ensures
            r == (spec_image_alpha_type_from_integer(*bits) is Some),
    {
        *bits <= 1
    }

    /// The alpha encoding encoded by the zero byte.
    pub fn zeroed() -> (r: Self)
        ensures
            r == ImageAlphaType::Alpha,
    {
        ImageAlphaType::Alpha
    }
}

/// The byte encoding of an alpha encoding.
pub open spec fn spec_image_alpha_type_integer(v: ImageAlphaType) -> u8 {
    match v {
        ImageAlphaType::Alpha => 0u8,
        ImageAlphaType::AlphaPremultiplied => 1u8,
    }
}

/// The alpha encoding a byte encodes, if any.
pub open spec fn spec_image_alpha_type_from_integer(value: u8) -> Option<ImageAlphaType> {
    if value == 0 {
        Some(ImageAlphaType::Alpha)
    } else if value == 1 {
        Some(ImageAlphaType::AlphaPremultiplied)
    } else {
        None
    }
}

impl ImageQuality {
    /// The byte encoding this quality setting.
    pub fn into_integer(self) -> (r: u8)
        ensures
            r == spec_image_quality_integer(self),
    {
        match self {
            ImageQuality::Low => 0,
            ImageQuality::Medium => 1,
            ImageQuality::High => 2,
        }
    }

    /// The quality setting encoded by the byte, if any.
    pub fn from_integer(value: u8) -> (r: Option<ImageQuality>)
        ensures
            r == spec_image_quality_from_integer(value),
    {
        match value {
            0 => Some(ImageQuality::Low),
            1 => Some(ImageQuality::Medium),
            2 => Some(ImageQuality::High),
            _ => None,
        }
    }

    /// Does the byte encode a quality setting?
    pub fn is_valid_bit_pattern(bits: &u8) -> (r: bool)
        ensures
            r == (spec_image_quality_from_integer(*bits) is Some),
    {
        *bits <= 2
    }

    /// The quality setting encoded by the zero byte.
    pub fn zeroed() -> (r: Self)
        ensures
            r == ImageQuality::Low,
    {
        ImageQuality::Low
    }
}

/// The byte encoding of a quality setting.
pub open spec fn spec_image_quality_integer(v: ImageQuality) -> u8 {
    match v {
        ImageQuality::Low => 0u8,
        ImageQuality::Medium => 1u8,
        ImageQuality::High => 2u8,
    }
}

/// The quality setting a byte encodes, if any.
pub open spec fn spec_image_quality_from_integer(value: u8) -> Option<ImageQuality> {
    if value == 0 {
        Some(ImageQuality::Low)
    } else if value == 1 {
        Some(ImageQuality::Medium)
    } else if value == 2 {
        Some(ImageQuality::High)
    } else {
        None
    }
}

/// Owned shareable image resource.
#[derive(Clone, Debug, PartialEq)]
pub struct ImageData {
    /// Blob containing the image data.
    pub data: Blob<u8>,
    /// Pixel format of the image.
    pub format: ImageFormat,
    /// Encoding of alpha in the image pixels.
    pub alpha_type: ImageAlphaType,
    /// Width of the image.
    pub width: u32,
    /// Height of the image.
    pub height: u32,
}

} // verus!
