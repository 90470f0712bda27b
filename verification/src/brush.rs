use vstd::prelude::*;

verus! {

/// Defines how a brush is extended when the content does not fill a shape.
#[derive(Clone, Copy, Debug, PartialEq, Eq, Structural)]
pub enum Extend {
    /// Extends the image by repeating the edge color of the brush.
    Pad,
    /// Extends the image by repeating the brush.
    Repeat,
    /// Extends the image by reflecting the brush.
    Reflect,
}

impl Default for Extend {
    /// The default extend mode pads with the edge color.
    fn default() -> (r: Self)
        ensures
            r == Extend::Pad,
    {
        Extend::Pad
    }
}

impl Extend {
    /// The byte encoding this extend mode.
    pub fn into_integer(self) -> (r: u8)
        ensures
            r == spec_extend_integer(self),
    {
        match self {
            Extend::Pad => 0,
            Extend::Repeat => 1,
            Extend::Reflect => 2,
        }
    }

    /// The extend mode encoded by the byte, if any.
    pub fn from_integer(value: u8) -> (r: Option<Extend>)
        ensures
            r == spec_extend_from_integer(value),
    {
        match value {
            0 => Some(Extend::Pad),
            1 => Some(Extend::Repeat),
            2 => Some(Extend::Reflect),
            _ => None,
        }
    }

    /// Does the byte encode an extend mode?
    pub fn is_valid_bit_pattern(bits: &u8) -> (r: bool)
        ensures
            r == (spec_extend_from_integer(*bits) is Some),
    {
        *bits <= 2
    }

    /// The extend mode encoded by the zero byte.
    pub fn zeroed() -> (r: Self)
        ensures
            r == Extend::Pad,
    {
        Extend::Pad
    }
}

/// The byte encoding of an extend mode.
pub open spec fn spec_extend_integer(v: Extend) -> u8 {
    match v {
        Extend::Pad => 0u8,
        Extend::Repeat => 1u8,
        Extend::Reflect => 2u8,
    }
}

/// The extend mode a byte encodes, if any.
pub open spec fn spec_extend_from_integer(value: u8) -> Option<Extend> {
    if value == 0 {
        Some(Extend::Pad)
    } else if value == 1 {
        Some(Extend::Repeat)
    } else if value == 2 {
        Some(Extend::Reflect)
    } else {
        None
    }
}

} // verus!
