use vstd::prelude::*;

verus! {

/// Defines the color mixing function for a [blend operation](BlendMode).
#[derive(Clone, Copy, Debug, PartialEq, Eq, Structural)]
pub enum Mix {
    /// No blending: the blending formula simply selects the source color.
    Normal,
    /// The source color is multiplied by the destination color.
    Multiply,
    /// Multiplies the complements of the backdrop and source color values,
    /// then complements the result.
    Screen,
    /// Multiplies or screens the colors, depending on the backdrop color.
    Overlay,
    /// Selects the darker of the backdrop and source colors.
    Darken,
    /// Selects the lighter of the backdrop and source colors.
    Lighten,
    /// Brightens the backdrop color to reflect the source color.
    ColorDodge,
    /// Darkens the backdrop color to reflect the source color.
    ColorBurn,
    /// Multiplies or screens the colors, depending on the source color.
    HardLight,
    /// Darkens or lightens the colors, depending on the source color.
    SoftLight,
    /// Subtracts the darker of the two constituent colors from the lighter.
    Difference,
    /// Like `Difference` but lower in contrast.
    Exclusion,
    /// The hue of the source with the saturation and luminosity of the
    /// backdrop.
    Hue,
    /// The saturation of the source with the hue and luminosity of the
    /// backdrop.
    Saturation,
    /// The hue and saturation of the source with the luminosity of the
    /// backdrop.
    Color,
    /// The luminosity of the source with the hue and saturation of the
    /// backdrop.
    Luminosity,
}

/// Defines the layer composition function for a [blend operation](BlendMode).
#[derive(Clone, Copy, Debug, PartialEq, Eq, Structural)]
pub enum Compose {
    /// No regions are enabled.
    Clear,
    /// Only the source will be present.
    Copy,
    /// Only the destination will be present.
    Dest,
    /// The source is placed over the destination.
    SrcOver,
    /// The destination is placed over the source.
    DestOver,
    /// The parts of the source that overlap with the destination are placed.
    SrcIn,
    /// The parts of the destination that overlap with the source are placed.
    DestIn,
    /// The parts of the source that fall outside of the destination are
    /// placed.
    SrcOut,
    /// The parts of the destination that fall outside of the source are
    /// placed.
    DestOut,
    /// The parts of the source which overlap the destination replace the
    /// destination; the destination is placed everywhere else.
    SrcAtop,
    /// The parts of the destination which overlap the source replace the
    /// source; the source is placed everywhere else.
    DestAtop,
    /// The non-overlapping regions of source and destination are combined.
    Xor,
    /// The sum of the source image and destination image is displayed.
    Plus,
    /// Cross-fades two elements by complementary opacities.
    PlusLighter,
}

impl Mix {
    /// The byte encoding this mixing function.
    pub fn into_integer(self) -> (r: u8)
        ensures
            r == spec_mix_integer(self),
    {
        match self {
            Mix::Normal => 0,
            Mix::Multiply => 1,
            Mix::Screen => 2,
            Mix::Overlay => 3,
            Mix::Darken => 4,
            Mix::Lighten => 5,
            Mix::ColorDodge => 6,
            Mix::ColorBurn => 7,
            Mix::HardLight => 8,
            Mix::SoftLight => 9,
            Mix::Difference => 10,
            Mix::Exclusion => 11,
            Mix::Hue => 12,
            Mix::Saturation => 13,
            Mix::Color => 14,
            Mix::Luminosity => 15,
        }
    }

    /// The mixing function encoded by the byte, if any.
    pub fn from_integer(value: u8) -> (r: Option<Mix>)
        ensures
            r == spec_mix_from_integer(value),
    {
        match value {
            0 => Some(Mix::Normal),
            1 => Some(Mix::Multiply),
            2 => Some(Mix::Screen),
            3 => Some(Mix::Overlay),
            4 => Some(Mix::Darken),
            5 => Some(Mix::Lighten),
            6 => Some(Mix::ColorDodge),
            7 => Some(Mix::ColorBurn),
            8 => Some(Mix::HardLight),
            9 => Some(Mix::SoftLight),
            10 => Some(Mix::Difference),
            11 => Some(Mix::Exclusion),
            12 => Some(Mix::Hue),
            13 => Some(Mix::Saturation),
            14 => Some(Mix::Color),
            15 => Some(Mix::Luminosity),
            _ => None,
        }
    }

    /// Does the byte encode a mixing function?
    pub fn is_valid_bit_pattern(bits: &u8) -> (r: bool)
        ensures
            r == (spec_mix_from_integer(*bits) is Some),
    {
        *bits <= 15
    }

    /// The mixing function encoded by the zero byte.
    pub fn zeroed() -> (r: Self)
        ensures
            r == Mix::Normal,
    {
        Mix::Normal
    }
}

/// The byte encoding of a mixing function.
pub open spec fn spec_mix_integer(v: Mix) -> u8 {
    match v {
        Mix::Normal => 0u8,
        Mix::Multiply => 1u8,
        Mix::Screen => 2u8,
        Mix::Overlay => 3u8,
        Mix::Darken => 4u8,
        Mix::Lighten => 5u8,
        Mix::ColorDodge => 6u8,
        Mix::ColorBurn => 7u8,
        Mix::HardLight => 8u8,
        Mix::SoftLight => 9u8,
        Mix::Difference => 10u8,
        Mix::Exclusion => 11u8,
        Mix::Hue => 12u8,
        Mix::Saturation => 13u8,
        Mix::Color => 14u8,
        Mix::Luminosity => 15u8,
    }
}

/// The mixing function a byte encodes, if any.
pub open spec fn spec_mix_from_integer(value: u8) -> Option<Mix> {
    if value == 0 {
        Some(Mix::Normal)
    } else if value == 1 {
        Some(Mix::Multiply)
    } else if value == 2 {
        Some(Mix::Screen)
    } else if value == 3 {
        Some(Mix::Overlay)
    } else if value == 4 {
        Some(Mix::Darken)
    } else if value == 5 {
        Some(Mix::Lighten)
    } else if value == 6 {
        Some(Mix::ColorDodge)
    } else if value == 7 {
        Some(Mix::ColorBurn)
    } else if value == 8 {
        Some(Mix::HardLight)
    } else if value == 9 {
        Some(Mix::SoftLight)
    } else if value == 10 {
        Some(Mix::Difference)
    } else if value == 11 {
        Some(Mix::Exclusion)
    } else if value == 12 {
        Some(Mix::Hue)
    } else if value == 13 {
        Some(Mix::Saturation)
    } else if value == 14 {
        Some(Mix::Color)
    } else if value == 15 {
        Some(Mix::Luminosity)
    } else {
        None
    }
}

impl Compose {
    /// The byte encoding this composition function.
    pub fn into_integer(self) -> (r: u8)
        ensures
            r == spec_compose_integer(self),
    {
        match self {
            Compose::Clear => 0,
            Compose::Copy => 1,
            Compose::Dest => 2,
            Compose::SrcOver => 3,
            Compose::DestOver => 4,
            Compose::SrcIn => 5,
            Compose::DestIn => 6,
            Compose::SrcOut => 7,
            Compose::DestOut => 8,
            Compose::SrcAtop => 9,
            Compose::DestAtop => 10,
            Compose::Xor => 11,
            Compose::Plus => 12,
            Compose::PlusLighter => 13,
        }
    }

    /// The composition function encoded by the byte, if any.
    pub fn from_integer(value: u8) -> (r: Option<Compose>)
        ensures
            r == spec_compose_from_integer(value),
    {
        match value {
            0 => Some(Compose::Clear),
            1 => Some(Compose::Copy),
            2 => Some(Compose::Dest),
            3 => Some(Compose::SrcOver),
            4 => Some(Compose::DestOver),
            5 => Some(Compose::SrcIn),
            6 => Some(Compose::DestIn),
            7 => Some(Compose::SrcOut),
            8 => Some(Compose::DestOut),
            9 => Some(Compose::SrcAtop),
            10 => Some(Compose::DestAtop),
            11 => Some(Compose::Xor),
            12 => Some(Compose::Plus),
            13 => Some(Compose::PlusLighter),
            _ => None,
        }
    }

    /// Does the byte encode a composition function?
    pub fn is_valid_bit_pattern(bits: &u8) -> (r: bool)
        ensures
            r == (spec_compose_from_integer(*bits) is Some),
    {
        *bits <= 13
    }

    /// The composition function encoded by the zero byte.
    pub fn zeroed() -> (r: Self)
        ensures
            r == Compose::Clear,
    {
        Compose::Clear
    }
}

/// The byte encoding of a composition function.
pub open spec fn spec_compose_integer(v: Compose) -> u8 {
    match v {
        Compose::Clear => 0u8,
        Compose::Copy => 1u8,
        Compose::Dest => 2u8,
        Compose::SrcOver => 3u8,
        Compose::DestOver => 4u8,
        Compose::SrcIn => 5u8,
        Compose::DestIn => 6u8,
        Compose::SrcOut => 7u8,
        Compose::DestOut => 8u8,
        Compose::SrcAtop => 9u8,
        Compose::DestAtop => 10u8,
        Compose::Xor => 11u8,
        Compose::Plus => 12u8,
        Compose::PlusLighter => 13u8,
    }
}

/// The composition function a byte encodes, if any.
pub open spec fn spec_compose_from_integer(value: u8) -> Option<Compose> {
    if value == 0 {
        Some(Compose::Clear)
    } else if value == 1 {
        Some(Compose::Copy)
    } else if value == 2 {
        Some(Compose::Dest)
    } else if value == 3 {
        Some(Compose::SrcOver)
    } else if value == 4 {
        Some(Compose::DestOver)
    } else if value == 5 {
        Some(Compose::SrcIn)
    } else if value == 6 {
        Some(Compose::DestIn)
    } else if value == 7 {
        Some(Compose::SrcOut)
    } else if value == 8 {
        Some(Compose::DestOut)
    } else if value == 9 {
        Some(Compose::SrcAtop)
    } else if value == 10 {
        Some(Compose::DestAtop)
    } else if value == 11 {
        Some(Compose::Xor)
    } else if value == 12 {
        Some(Compose::Plus)
    } else if value == 13 {
        Some(Compose::PlusLighter)
    } else {
        None
    }
}

/// Blend mode consisting of [color mixing](Mix) and [composition
/// functions](Compose).
#[derive(Clone, Copy, Debug, PartialEq, Eq, Structural)]
pub struct BlendMode {
    /// The color mixing function.
    pub mix: Mix,
    /// The layer composition function.
    pub compose: Compose,
}

impl BlendMode {
    /// Creates a new blend mode from color mixing and layer composition
    /// functions.
    pub fn new(mix: Mix, compose: Compose) -> (r: Self)
        ensures
            r == (BlendMode { mix, compose }),
    {
        BlendMode { mix, compose }
    }
}

impl Default for BlendMode {
    /// The default blend mode: normal mixing, source placed over the
    /// destination.
    fn default() -> (r: Self)
        ensures
            r == (BlendMode { mix: Mix::Normal, compose: Compose::SrcOver }),
    {
        BlendMode { mix: Mix::Normal, compose: Compose::SrcOver }
    }
}

impl From<Mix> for BlendMode {
    fn from(mix: Mix) -> (r: Self) {
        BlendMode { mix, compose: Compose::SrcOver }
    }
}

impl vstd::std_specs::convert::FromSpecImpl<Mix> for BlendMode {
    open spec fn obeys_from_spec() -> bool {
        true
    }

    open spec fn from_spec(mix: Mix) -> Self {
        BlendMode { mix, compose: Compose::SrcOver }
    }
}

impl From<Compose> for BlendMode {
    fn from(compose: Compose) -> (r: Self) {
        BlendMode { mix: Mix::Normal, compose }
    }
}

impl vstd::std_specs::convert::FromSpecImpl<Compose> for BlendMode {
    open spec fn obeys_from_spec() -> bool {
        true
    }

    open spec fn from_spec(compose: Compose) -> Self {
        BlendMode { mix: Mix::Normal, compose }
    }
}

} // verus!
