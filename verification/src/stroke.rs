use vstd::prelude::*;

use crate::scalar::Scalar;

verus! {

/// Defines the connection between two segments of a stroke.
#[derive(Clone, Copy, Debug, PartialEq, Eq, Structural)]
pub enum Join {
    /// A straight line connecting the segments.
    Bevel,
    /// The segments are extended to their natural intersection point.
    Miter,
    /// An arc between the segments.
    Round,
}

/// Defines the shape to be drawn at the ends of a stroke.
#[derive(Clone, Copy, Debug, PartialEq, Eq, Structural)]
pub enum Cap {
    /// Flat cap.
    Butt,
    /// Square cap with dimensions equal to half the stroke width.
    Square,
    /// Rounded cap with radius equal to half the stroke width.
    Round,
}

/// The visual style of a stroke.
#[derive(Debug)]
pub struct Stroke {
    /// Width of the stroke.
    pub width: Scalar,
    /// Style for connecting segments of the stroke.
    pub join: Join,
    /// Limit for miter joins.
    pub miter_limit: Scalar,
    /// Style for capping the beginning of an open subpath.
    pub start_cap: Cap,
    /// Style for capping the end of an open subpath.
    pub end_cap: Cap,
    /// Lengths of dashes in alternating on/off order.
    pub dash_pattern: Vec<Scalar>,
    /// Offset of the first dash.
    pub dash_offset: Scalar,
    /// True when the stroke extent follows the transform applied to the
    /// shape; false for a hairline-style stroke of fixed extent.
    pub scale: bool,
}

impl Stroke {
    /// Creates a new stroke with the specified width. The remaining
    /// parameters take their customary defaults: round joins and caps, a
    /// miter limit of four, no dashes.
    pub fn new(width: Scalar) -> (r: Self)
        ensures
            r.width == width,
            r.join == Join::Round,
            r.miter_limit == Scalar::Finite((4 * 65536) as i64),
            r.start_cap == Cap::Round,
            r.end_cap == Cap::Round,
            r.dash_pattern@ == Seq::<Scalar>::empty(),
            r.dash_offset == Scalar::Finite(0i64),
            r.scale == true,
    {
        Stroke {
            width,
            join: Join::Round,
            miter_limit: Scalar::from_int(4),
            start_cap: Cap::Round,
            end_cap: Cap::Round,
            dash_pattern: Vec::new(),
            dash_offset: Scalar::zero(),
            scale: true,
        }
    }

    /// Builder method for setting the join style.
    pub fn with_join(self, join: Join) -> (r: Self)
        ensures
            r == (Stroke { join, ..self }),
    {
        Stroke { join, ..self }
    }

    /// Builder method for setting the miter limit.
    pub fn with_miter_limit(self, limit: Scalar) -> (r: Self)
        ensures
            r == (Stroke { miter_limit: limit, ..self }),
    {
        Stroke { miter_limit: limit, ..self }
    }

    /// Builder method for setting the cap style at the start of a subpath.
    pub fn with_start_cap(self, cap: Cap) -> (r: Self)
        ensures
            r == (Stroke { start_cap: cap, ..self }),
    {
        Stroke { start_cap: cap, ..self }
    }

    /// Builder method for setting the cap style at the end of a subpath.
    pub fn with_end_cap(self, cap: Cap) -> (r: Self)
        ensures
            r == (Stroke { end_cap: cap, ..self }),
    {
        Stroke { end_cap: cap, ..self }
    }

    /// Builder method for setting the cap style at both ends of a subpath.
    pub fn with_caps(self, cap: Cap) -> (r: Self)
        ensures
            r == (Stroke { start_cap: cap, end_cap: cap, ..self }),
    {
        Stroke { start_cap: cap, end_cap: cap, ..self }
    }

    /// Builder method for setting the dash pattern and offset.
    pub fn with_dashes(self, offset: Scalar, dashes: Vec<Scalar>) -> (r: Self)
        ensures
            r == (Stroke { dash_offset: offset, dash_pattern: dashes, ..self }),
    {
        Stroke { dash_offset: offset, dash_pattern: dashes, ..self }
    }

    /// Builder method for setting whether the stroke extent follows the
    /// shape transform.
    pub fn with_scale(self, scale: bool) -> (r: Self)
        ensures
            r == (Stroke { scale, ..self }),
    {
        Stroke { scale, ..self }
    }
}

impl PartialEq for Stroke {
    /// Strokes are equal when all their parameters are equal, the dash
    /// pattern compared element by element.
    fn eq(&self, other: &Self) -> (r: bool) {
        if !(self.width == other.width && self.join == other.join && self.miter_limit
            == other.miter_limit && self.start_cap == other.start_cap && self.end_cap
            == other.end_cap && self.dash_offset == other.dash_offset && self.scale
            == other.scale) {
            return false;
        }
        let n: usize = self.dash_pattern.len();
        if n != other.dash_pattern.len() {
            proof {
                assert(self.dash_pattern@.len() != other.dash_pattern@.len());
            }
            return false;
        }
        let mut i: usize = 0;
        while i < n
            invariant
                0 <= i <= n,
                n == self.dash_pattern@.len(),
                n == other.dash_pattern@.len(),
                forall|j: int| 0 <= j < i ==> self.dash_pattern@[j] == other.dash_pattern@[j],
            decreases n - i,
        {
            if self.dash_pattern[i] != other.dash_pattern[i] {
                return false;
            }
            i += 1;
        }
        proof {
            assert(self.dash_pattern@ =~= other.dash_pattern@);
        }
        true
    }
}

/// Equality of strokes: all parameters equal, the dash pattern compared
/// element by element.
pub open spec fn spec_stroke_eq(a: Stroke, b: Stroke) -> bool {
    a.width == b.width && a.join == b.join && a.miter_limit == b.miter_limit && a.start_cap
        == b.start_cap && a.end_cap == b.end_cap && a.dash_pattern@ == b.dash_pattern@
        && a.dash_offset == b.dash_offset && a.scale == b.scale
}

impl vstd::std_specs::cmp::PartialEqSpecImpl for Stroke {
    open spec fn obeys_eq_spec() -> bool {
        true
    }

    open spec fn eq_spec(&self, other: &Self) -> bool {
        spec_stroke_eq(*self, *other)
    }
}

impl Clone for Stroke {
    /// A clone carries the same parameters, the dash pattern included.
    fn clone(&self) -> (res: Self)
        ensures
            res.width == self.width,
            res.join == self.join,
            res.miter_limit == self.miter_limit,
            res.start_cap == self.start_cap,
            res.end_cap == self.end_cap,
            res.dash_pattern@ == self.dash_pattern@,
            res.dash_offset == self.dash_offset,
            res.scale == self.scale,
    {
        let n: usize = self.dash_pattern.len();
        let mut dashes: Vec<Scalar> = Vec::new();
        let mut i: usize = 0;
        while i < n
            invariant
                0 <= i <= n,
                n == self.dash_pattern@.len(),
                dashes@ == self.dash_pattern@.subrange(0, i as int),
            decreases n - i,
        {
            dashes.push(self.dash_pattern[i]);
            proof {
                assert(dashes@ =~= self.dash_pattern@.subrange(0, i + 1));
            }
            i += 1;
        }
        proof {
            assert(dashes@ =~= self.dash_pattern@);
        }
        Stroke {
            width: self.width,
            join: self.join,
            miter_limit: self.miter_limit,
            start_cap: self.start_cap,
            end_cap: self.end_cap,
            dash_pattern: dashes,
            dash_offset: self.dash_offset,
            scale: self.scale,
        }
    }
}

impl Default for Stroke {
    /// The default stroke: width one, with the defaults of [`Stroke::new`].
    fn default() -> (r: Self)
        ensures
            r.width == Scalar::Finite(65536i64),
            r.join == Join::Round,
            r.miter_limit == Scalar::Finite((4 * 65536) as i64),
            r.dash_pattern@ == Seq::<Scalar>::empty(),
            r.dash_offset == Scalar::Finite(0i64),
    {
        Self::new(Scalar::from_int(1))
    }
}

} // verus!
