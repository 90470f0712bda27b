use vstd::prelude::*;

use crate::stroke::Stroke;

verus! {

/// Describes the rule that determines the interior portion of a shape.
///
/// This is only relevant for self-intersecting paths: for
/// non-self-intersecting paths, both rules produce the same result.
#[derive(Clone, Copy, Debug, PartialEq, Eq, Structural)]
pub enum Fill {
    /// Non-zero fill rule: all regions where the winding number of the path
    /// is not zero are filled.
    NonZero,
    /// Even-odd fill rule: all regions where the winding number of the path
    /// is odd are filled.
    EvenOdd,
}

impl Default for Fill {
    /// The default fill rule is non-zero.
    fn default() -> (r: Self)
        ensures
            r == Fill::NonZero,
    {
        Fill::NonZero
    }
}

impl Fill {
    /// The byte encoding this fill rule.
    pub fn into_integer(self) -> (r: u8)
        ensures
            r == spec_fill_integer(self),
    {
        match self {
            Fill::NonZero => 0,
            Fill::EvenOdd => 1,
        }
    }

    /// The fill rule encoded by the byte, if any.
    pub fn from_integer(value: u8) -> (r: Option<Fill>)
        ensures
            r == spec_fill_from_integer(value),
    {
        match value {
            0 => Some(Fill::NonZero),
            1 => Some(Fill::EvenOdd),
            _ => None,
        }
    }

    /// Does the byte encode a fill rule?
    pub fn is_valid_bit_pattern(bits: &u8) -> (r: bool)
        ensures
            r == (spec_fill_from_integer(*bits) is Some),
    {
        *bits <= 1
    }

    /// The fill rule encoded by the zero byte.
    pub fn zeroed() -> (r: Self)
        ensures
            r == Fill::NonZero,
    {
        Fill::NonZero
    }
}

/// The byte encoding of a fill rule.
pub open spec fn spec_fill_integer(f: Fill) -> u8 {
    match f {
        Fill::NonZero => 0u8,
        Fill::EvenOdd => 1u8,
    }
}

/// The fill rule a byte encodes, if any.
pub open spec fn spec_fill_from_integer(value: u8) -> Option<Fill> {
    if value == 0 {
        Some(Fill::NonZero)
    } else if value == 1 {
        Some(Fill::EvenOdd)
    } else {
        None
    }
}

/// Describes a draw style: either a fill or a stroke.
#[derive(Clone, Debug)]
pub enum Style {
    /// Filled draw operation.
    Fill(Fill),
    /// Stroked draw operation.
    Stroke(Stroke),
}

impl From<Fill> for Style {
    fn from(fill: Fill) -> (r: Self) {
        Style::Fill(fill)
    }
}

impl vstd::std_specs::convert::FromSpecImpl<Fill> for Style {
    open spec fn obeys_from_spec() -> bool {
        true
    }

    open spec fn from_spec(fill: Fill) -> Self {
        Style::Fill(fill)
    }
}

impl From<Stroke> for Style {
    fn from(stroke: Stroke) -> (r: Self) {
        Style::Stroke(stroke)
    }
}

/// Reference to a [draw style](Style).
///
/// This is useful for methods that would like to accept draw styles by
/// reference, so a stroke can be handed over without cloning its dash
/// pattern.
#[derive(Clone, Copy, Debug)]
pub enum StyleRef<'a> {
    /// Filled draw operation.
    Fill(Fill),
    /// Stroked draw operation.
    Stroke(&'a Stroke),
}

/// The owned style denotes the same drawing as the reference: the same
/// fill rule, or a stroke with the same parameters.
pub open spec fn spec_style_matches_ref(r: Style, s: StyleRef<'_>) -> bool {
    match s {
        StyleRef::Fill(fill) => r == Style::Fill(fill),
        StyleRef::Stroke(stroke) => r matches Style::Stroke(x) && x.width == stroke.width
            && x.join == stroke.join && x.miter_limit == stroke.miter_limit && x.start_cap
            == stroke.start_cap && x.end_cap == stroke.end_cap && x.dash_pattern@
            == stroke.dash_pattern@ && x.dash_offset == stroke.dash_offset && x.scale
            == stroke.scale,
    }
}

impl StyleRef<'_> {
    /// Converts the reference to an owned draw style.
    pub fn to_owned(&self) -> (r: Style)
        ensures
            spec_style_matches_ref(r, *self),
    {
        match self {
            Self::Fill(fill) => Style::Fill(*fill),
            Self::Stroke(stroke) => Style::Stroke((*stroke).clone()),
        }
    }
}

impl<'a> From<Fill> for StyleRef<'a> {
    fn from(fill: Fill) -> (r: Self) {
        StyleRef::Fill(fill)
    }
}

impl<'a> vstd::std_specs::convert::FromSpecImpl<Fill> for StyleRef<'a> {
    open spec fn obeys_from_spec() -> bool {
        true
    }

    open spec fn from_spec(fill: Fill) -> Self {
        StyleRef::Fill(fill)
    }
}

impl<'a> From<&'a Stroke> for StyleRef<'a> {
    fn from(stroke: &'a Stroke) -> (r: Self) {
        StyleRef::Stroke(stroke)
    }
}

impl<'a> vstd::std_specs::convert::FromSpecImpl<&'a Stroke> for StyleRef<'a> {
    open spec fn obeys_from_spec() -> bool {
        true
    }

    open spec fn from_spec(stroke: &'a Stroke) -> Self {
        StyleRef::Stroke(stroke)
    }
}

impl vstd::std_specs::convert::FromSpecImpl<Stroke> for Style {
    open spec fn obeys_from_spec() -> bool {
        true
    }

    open spec fn from_spec(stroke: Stroke) -> Self {
        Style::Stroke(stroke)
    }
}

} // verus!
