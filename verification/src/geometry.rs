use vstd::prelude::*;

use crate::scalar::{
    spec_abs, spec_add, spec_max, spec_min, spec_mul, spec_neg, spec_sub, Scalar,
};

verus! {

/// A point in 2D space.
#[derive(Clone, Copy, Debug, PartialEq, Eq, Structural)]
pub struct Point {
    /// Horizontal coordinate.
    pub x: Scalar,
    /// Vertical coordinate.
    pub y: Scalar,
}

/// Both coordinates of the point are finite.
pub open spec fn spec_point_finite(p: Point) -> bool {
    p.x is Finite && p.y is Finite
}

/// Some coordinate of the point is `NaN`.
pub open spec fn spec_point_nan(p: Point) -> bool {
    p.x is NaN || p.y is NaN
}

impl Point {
    /// A new point from its coordinates.
    pub fn new(x: Scalar, y: Scalar) -> (r: Self)
        ensures
            r == (Point { x, y }),
    {
        Point { x, y }
    }

    /// Are both coordinates finite?
    pub fn is_finite(&self) -> (r: bool)
        ensures
            r == spec_point_finite(*self),
    {
        self.x.is_finite() && self.y.is_finite()
    }

    /// Is some coordinate `NaN`?
    pub fn is_nan(&self) -> (r: bool)
        ensures
            r == spec_point_nan(*self),
    {
        self.x.is_nan() || self.y.is_nan()
    }
}

/// An axis-aligned rectangle, given by two opposite corners.
///
/// The corners are stored exactly as given: a rectangle is *normalized* when
/// `x0 <= x1` and `y0 <= y1`, and [`Rect::abs`] produces the normalized form.
#[derive(Clone, Copy, Debug, PartialEq, Eq, Structural)]
pub struct Rect {
    /// Horizontal coordinate of the first corner.
    pub x0: Scalar,
    /// Vertical coordinate of the first corner.
    pub y0: Scalar,
    /// Horizontal coordinate of the second corner.
    pub x1: Scalar,
    /// Vertical coordinate of the second corner.
    pub y1: Scalar,
}

/// All four coordinates of the rectangle are finite.
pub open spec fn spec_rect_finite(r: Rect) -> bool {
    r.x0 is Finite && r.x1 is Finite && r.y0 is Finite && r.y1 is Finite
}

/// Some coordinate of the rectangle is `NaN`.
pub open spec fn spec_rect_nan(r: Rect) -> bool {
    r.x0 is NaN || r.y0 is NaN || r.x1 is NaN || r.y1 is NaN
}

/// The normalized form of a rectangle: corners reordered so width and height
/// come out non-negative.
pub open spec fn spec_rect_abs(r: Rect) -> Rect {
    Rect {
        x0: spec_min(r.x0, r.x1),
        y0: spec_min(r.y0, r.y1),
        x1: spec_max(r.x0, r.x1),
        y1: spec_max(r.y0, r.y1),
    }
}

/// The normalized rectangle spanned by two points.
pub open spec fn spec_rect_from_points(p0: Point, p1: Point) -> Rect {
    spec_rect_abs(Rect { x0: p0.x, y0: p0.y, x1: p1.x, y1: p1.y })
}

/// The smallest rectangle enclosing two rectangles; meaningful for
/// normalized inputs.
pub open spec fn spec_rect_union(a: Rect, b: Rect) -> Rect {
    Rect {
        x0: spec_min(a.x0, b.x0),
        y0: spec_min(a.y0, b.y0),
        x1: spec_max(a.x1, b.x1),
        y1: spec_max(a.y1, b.y1),
    }
}

/// The smallest rectangle enclosing a rectangle and a point.
pub open spec fn spec_rect_union_pt(a: Rect, p: Point) -> Rect {
    Rect {
        x0: spec_min(a.x0, p.x),
        y0: spec_min(a.y0, p.y),
        x1: spec_max(a.x1, p.x),
        y1: spec_max(a.y1, p.y),
    }
}

/// The rectangle grown by `width` on the left and right and by `height` on
/// the top and bottom.
pub open spec fn spec_rect_inflate(r: Rect, width: Scalar, height: Scalar) -> Rect {
    Rect {
        x0: spec_sub(r.x0, width),
        y0: spec_sub(r.y0, height),
        x1: spec_add(r.x1, width),
        y1: spec_add(r.y1, height),
    }
}

impl Rect {
    /// A new rectangle from corner coordinates.
    pub fn new(x0: Scalar, y0: Scalar, x1: Scalar, y1: Scalar) -> (r: Self)
        ensures
            r == (Rect { x0, y0, x1, y1 }),
    {
        Rect { x0, y0, x1, y1 }
    }

    /// The rectangle with all coordinates zero.
    pub fn zero() -> (r: Self)
        ensures
            r == spec_rect_zero(),
    {
        Rect {
            x0: Scalar::zero(),
            y0: Scalar::zero(),
            x1: Scalar::zero(),
            y1: Scalar::zero(),
        }
    }

    /// A new rectangle spanned by two points, normalized so that width and
    /// height are non-negative.
    pub fn from_points(p0: Point, p1: Point) -> (r: Self)
        ensures
            r == spec_rect_from_points(p0, p1),
    {
        Rect { x0: p0.x, y0: p0.y, x1: p1.x, y1: p1.y }.abs()
    }

    /// Width of the rectangle, `x1 - x0`.
    pub fn width(&self) -> (r: Scalar)
        ensures
            r == spec_sub(self.x1, self.x0),
    {
        self.x1.sub(self.x0)
    }

    /// Height of the rectangle, `y1 - y0`.
    pub fn height(&self) -> (r: Scalar)
        ensures
            r == spec_sub(self.y1, self.y0),
    {
        self.y1.sub(self.y0)
    }

    /// The normalized form of this rectangle.
    pub fn abs(&self) -> (r: Self)
        ensures
            r == spec_rect_abs(*self),
    {
        Rect {
            x0: self.x0.min(self.x1),
            y0: self.y0.min(self.y1),
            x1: self.x0.max(self.x1),
            y1: self.y0.max(self.y1),
        }
    }

    /// The smallest rectangle enclosing this one and `other`; meaningful for
    /// normalized inputs.
    pub fn union(&self, other: Rect) -> (r: Self)
        ensures
            r == spec_rect_union(*self, other),
    {
        Rect {
            x0: self.x0.min(other.x0),
            y0: self.y0.min(other.y0),
            x1: self.x1.max(other.x1),
            y1: self.y1.max(other.y1),
        }
    }

    /// The smallest rectangle enclosing this one and the given point.
    pub fn union_pt(&self, pt: Point) -> (r: Self)
        ensures
            r == spec_rect_union_pt(*self, pt),
    {
        Rect {
            x0: self.x0.min(pt.x),
            y0: self.y0.min(pt.y),
            x1: self.x1.max(pt.x),
            y1: self.y1.max(pt.y),
        }
    }

    /// This rectangle grown by `width` on the left and right and by `height`
    /// on the top and bottom.
    pub fn inflate(&self, width: Scalar, height: Scalar) -> (r: Self)
        ensures
            r == spec_rect_inflate(*self, width, height),
    {
        Rect {
            x0: self.x0.sub(width),
            y0: self.y0.sub(height),
            x1: self.x1.add(width),
            y1: self.y1.add(height),
        }
    }

    /// Are all four coordinates finite?
    pub fn is_finite(&self) -> (r: bool)
        ensures
            r == spec_rect_finite(*self),
    {
        self.x0.is_finite() && self.x1.is_finite() && self.y0.is_finite() && self.y1.is_finite()
    }

    /// Is some coordinate `NaN`?
    pub fn is_nan(&self) -> (r: bool)
        ensures
            r == spec_rect_nan(*self),
    {
        self.x0.is_nan() || self.y0.is_nan() || self.x1.is_nan() || self.y1.is_nan()
    }
}

/// The all-zero rectangle, the bounding box of an empty path.
pub open spec fn spec_rect_zero() -> Rect {
    Rect {
        x0: Scalar::Finite(0i64),
        y0: Scalar::Finite(0i64),
        x1: Scalar::Finite(0i64),
        y1: Scalar::Finite(0i64),
    }
}

/// Radii of the four corners of a rounded rectangle.
#[derive(Clone, Copy, Debug, PartialEq, Eq, Structural)]
pub struct RoundedRectRadii {
    /// The radius of the top-left corner.
    pub top_left: Scalar,
    /// The radius of the top-right corner.
    pub top_right: Scalar,
    /// The radius of the bottom-right corner.
    pub bottom_right: Scalar,
    /// The radius of the bottom-left corner.
    pub bottom_left: Scalar,
}

/// All four radii are finite.
pub open spec fn spec_radii_finite(r: RoundedRectRadii) -> bool {
    r.top_left is Finite && r.top_right is Finite && r.bottom_right is Finite
        && r.bottom_left is Finite
}

/// Some radius is `NaN`.
pub open spec fn spec_radii_nan(r: RoundedRectRadii) -> bool {
    r.top_left is NaN || r.top_right is NaN || r.bottom_right is NaN || r.bottom_left is NaN
}

/// All four radii replaced by their absolute values.
pub open spec fn spec_radii_abs(r: RoundedRectRadii) -> RoundedRectRadii {
    RoundedRectRadii {
        top_left: spec_abs(r.top_left),
        top_right: spec_abs(r.top_right),
        bottom_right: spec_abs(r.bottom_right),
        bottom_left: spec_abs(r.bottom_left),
    }
}

/// All four radii clamped from above by `max`.
pub open spec fn spec_radii_clamp(r: RoundedRectRadii, max: Scalar) -> RoundedRectRadii {
    RoundedRectRadii {
        top_left: spec_min(r.top_left, max),
        top_right: spec_min(r.top_right, max),
        bottom_right: spec_min(r.bottom_right, max),
        bottom_left: spec_min(r.bottom_left, max),
    }
}

impl RoundedRectRadii {
    /// New radii with the given value at every corner.
    pub fn from_single_radius(radius: Scalar) -> (r: Self)
        ensures
            r == (RoundedRectRadii {
                top_left: radius,
                top_right: radius,
                bottom_right: radius,
                bottom_left: radius,
            }),
    {
        RoundedRectRadii {
            top_left: radius,
            top_right: radius,
            bottom_right: radius,
            bottom_left: radius,
        }
    }

    /// These radii with every corner replaced by its absolute value.
    pub fn abs(&self) -> (r: Self)
        ensures
            r == spec_radii_abs(*self),
    {
        RoundedRectRadii {
            top_left: self.top_left.abs(),
            top_right: self.top_right.abs(),
            bottom_right: self.bottom_right.abs(),
            bottom_left: self.bottom_left.abs(),
        }
    }

    /// These radii with every corner clamped from above by `max`.
    pub fn clamp(&self, max: Scalar) -> (r: Self)
        ensures
            r == spec_radii_clamp(*self, max),
    {
        RoundedRectRadii {
            top_left: self.top_left.min(max),
            top_right: self.top_right.min(max),
            bottom_right: self.bottom_right.min(max),
            bottom_left: self.bottom_left.min(max),
        }
    }

    /// Are all four radii finite?
    pub fn is_finite(&self) -> (r: bool)
        ensures
            r == spec_radii_finite(*self),
    {
        self.top_left.is_finite() && self.top_right.is_finite() && self.bottom_right.is_finite()
            && self.bottom_left.is_finite()
    }

    /// Is some radius `NaN`?
    pub fn is_nan(&self) -> (r: bool)
        ensures
            r == spec_radii_nan(*self),
    {
        self.top_left.is_nan() || self.top_right.is_nan() || self.bottom_right.is_nan()
            || self.bottom_left.is_nan()
    }
}

/// The rounded rectangle that [`RoundedRect::from_rect`] builds: the
/// rectangle is normalized and the radii are made non-negative and clamped
/// to half the shorter side.
pub open spec fn spec_rounded_rect_from(rect: Rect, radii: RoundedRectRadii) -> RoundedRect {
    let normalized = spec_rect_abs(rect);
    let shortest = spec_min(
        spec_sub(normalized.x1, normalized.x0),
        spec_sub(normalized.y1, normalized.y0),
    );
    let limit = spec_mul(shortest, Scalar::Finite(32768i64));
    RoundedRect { rect: normalized, radii: spec_radii_clamp(spec_radii_abs(radii), limit) }
}

/// An axis-aligned rounded rectangle: a rectangle together with a radius for
/// each corner.
#[derive(Clone, Copy, Debug, PartialEq, Eq, Structural)]
pub struct RoundedRect {
    /// The underlying rectangle.
    pub rect: Rect,
    /// The corner radii.
    pub radii: RoundedRectRadii,
}

impl RoundedRect {
    /// A new rounded rectangle from corner coordinates and radii.
    pub fn new(
        x0: Scalar,
        y0: Scalar,
        x1: Scalar,
        y1: Scalar,
        radii: RoundedRectRadii,
    ) -> (r: Self)
        ensures
            r == spec_rounded_rect_from(Rect { x0, y0, x1, y1 }, radii),
    {
        Self::from_rect(Rect::new(x0, y0, x1, y1), radii)
    }

    /// A new rounded rectangle from a rectangle and corner radii.
    ///
    /// The result has non-negative width, height and radii; radii are
    /// clamped to half the shorter side.
    pub fn from_rect(rect: Rect, radii: RoundedRectRadii) -> (r: Self)
        ensures
            r == spec_rounded_rect_from(rect, radii),
    {
        let rect = rect.abs();
        let shortest_side_length = rect.width().min(rect.height());
        let radii = radii.abs().clamp(shortest_side_length.mul(Scalar::half()));
        RoundedRect { rect, radii }
    }

    /// A new rounded rectangle with the same radius at every corner.
    pub fn from_rect_radius(rect: Rect, radius: Scalar) -> (r: Self)
        ensures
            r == spec_rounded_rect_from(rect, RoundedRectRadii {
                top_left: radius,
                top_right: radius,
                bottom_right: radius,
                bottom_left: radius,
            }),
    {
        Self::from_rect(rect, RoundedRectRadii::from_single_radius(radius))
    }

    /// The underlying rectangle.
    pub fn rect(&self) -> (r: Rect)
        ensures
            r == self.rect,
    {
        self.rect
    }

    /// The corner radii.
    pub fn radii(&self) -> (r: RoundedRectRadii)
        ensures
            r == self.radii,
    {
        self.radii
    }

    /// The smallest rectangle enclosing the rounded rectangle.
    pub fn bounding_box(&self) -> (r: Rect)
        ensures
            r == spec_rect_abs(self.rect),
    {
        self.rect.abs()
    }

    /// Are the rectangle and all radii finite?
    pub fn is_finite(&self) -> (r: bool)
        ensures
            r == (spec_rect_finite(self.rect) && spec_radii_finite(self.radii)),
    {
        self.rect.is_finite() && self.radii.is_finite()
    }

    /// Is some coordinate or radius `NaN`?
    pub fn is_nan(&self) -> (r: bool)
        ensures
            r == (spec_rect_nan(self.rect) || spec_radii_nan(self.radii)),
    {
        self.rect.is_nan() || self.radii.is_nan()
    }
}

/// A 2D affine transform, stored as the six coefficients
/// `[a, b, c, d, e, f]` mapping a point `(x, y)` to
/// `(a * x + c * y + e, b * x + d * y + f)`.
#[derive(Clone, Copy, Debug, PartialEq, Eq, Structural)]
pub struct Affine {
    /// Coefficient multiplying `x` in the output `x`.
    pub a: Scalar,
    /// Coefficient multiplying `x` in the output `y`.
    pub b: Scalar,
    /// Coefficient multiplying `y` in the output `x`.
    pub c: Scalar,
    /// Coefficient multiplying `y` in the output `y`.
    pub d: Scalar,
    /// Translation added to the output `x`.
    pub e: Scalar,
    /// Translation added to the output `y`.
    pub f: Scalar,
}

/// All six coefficients are finite.
pub open spec fn spec_affine_finite(t: Affine) -> bool {
    t.a is Finite && t.b is Finite && t.c is Finite && t.d is Finite && t.e is Finite
        && t.f is Finite
}

/// Some coefficient is `NaN`.
pub open spec fn spec_affine_nan(t: Affine) -> bool {
    t.a is NaN || t.b is NaN || t.c is NaN || t.d is NaN || t.e is NaN || t.f is NaN
}

/// The image of a point under the transform.
pub open spec fn spec_map_point(t: Affine, p: Point) -> Point {
    Point {
        x: spec_add(spec_add(spec_mul(t.a, p.x), spec_mul(t.c, p.y)), t.e),
        y: spec_add(spec_add(spec_mul(t.b, p.x), spec_mul(t.d, p.y)), t.f),
    }
}

/// The axis-aligned bounding box of the images of the rectangle's four
/// corners under the transform.
pub open spec fn spec_transform_rect_bbox(t: Affine, r: Rect) -> Rect {
    let p00 = spec_map_point(t, Point { x: r.x0, y: r.y0 });
    let p01 = spec_map_point(t, Point { x: r.x0, y: r.y1 });
    let p10 = spec_map_point(t, Point { x: r.x1, y: r.y0 });
    let p11 = spec_map_point(t, Point { x: r.x1, y: r.y1 });
    spec_rect_union(spec_rect_from_points(p00, p01), spec_rect_from_points(p10, p11))
}

impl Affine {
    /// A new transform from its six coefficients.
    pub fn new(a: Scalar, b: Scalar, c: Scalar, d: Scalar, e: Scalar, f: Scalar) -> (r: Self)
        ensures
            r == (Affine { a, b, c, d, e, f }),
    {
        Affine { a, b, c, d, e, f }
    }

    /// The identity transform.
    pub fn identity() -> (r: Self)
        ensures
            r == (Affine {
                a: Scalar::Finite(65536i64),
                b: Scalar::Finite(0i64),
                c: Scalar::Finite(0i64),
                d: Scalar::Finite(65536i64),
                e: Scalar::Finite(0i64),
                f: Scalar::Finite(0i64),
            }),
    {
        Affine {
            a: Scalar::one(),
            b: Scalar::zero(),
            c: Scalar::zero(),
            d: Scalar::one(),
            e: Scalar::zero(),
            f: Scalar::zero(),
        }
    }

    /// A pure translation by `(x, y)`.
    pub fn translate(x: Scalar, y: Scalar) -> (r: Self)
        ensures
            r == (Affine {
                a: Scalar::Finite(65536i64),
                b: Scalar::Finite(0i64),
                c: Scalar::Finite(0i64),
                d: Scalar::Finite(65536i64),
                e: x,
                f: y,
            }),
    {
        Affine {
            a: Scalar::one(),
            b: Scalar::zero(),
            c: Scalar::zero(),
            d: Scalar::one(),
            e: x,
            f: y,
        }
    }

    /// A uniform scaling by `s` about the origin.
    pub fn scale(s: Scalar) -> (r: Self)
        ensures
            r == (Affine {
                a: s,
                b: Scalar::Finite(0i64),
                c: Scalar::Finite(0i64),
                d: s,
                e: Scalar::Finite(0i64),
                f: Scalar::Finite(0i64),
            }),
    {
        Affine {
            a: s,
            b: Scalar::zero(),
            c: Scalar::zero(),
            d: s,
            e: Scalar::zero(),
            f: Scalar::zero(),
        }
    }

    /// The image of a point under this transform.
    pub fn map_point(&self, p: Point) -> (r: Point)
        ensures
            r == spec_map_point(*self, p),
    {
        Point {
            x: self.a.mul(p.x).add(self.c.mul(p.y)).add(self.e),
            y: self.b.mul(p.x).add(self.d.mul(p.y)).add(self.f),
        }
    }

    /// The axis-aligned bounding box of the images of the rectangle's four
    /// corners, which encloses the image of the whole rectangle.
    pub fn transform_rect_bbox(&self, rect: Rect) -> (r: Rect)
        ensures
            r == spec_transform_rect_bbox(*self, rect),
    {
        let p00 = self.map_point(Point::new(rect.x0, rect.y0));
        let p01 = self.map_point(Point::new(rect.x0, rect.y1));
        let p10 = self.map_point(Point::new(rect.x1, rect.y0));
        let p11 = self.map_point(Point::new(rect.x1, rect.y1));
        Rect::from_points(p00, p01).union(Rect::from_points(p10, p11))
    }

    /// Are all six coefficients finite?
    pub fn is_finite(&self) -> (r: bool)
        ensures
            r == spec_affine_finite(*self),
    {
        self.a.is_finite() && self.b.is_finite() && self.c.is_finite() && self.d.is_finite()
            && self.e.is_finite() && self.f.is_finite()
    }

    /// Is some coefficient `NaN`?
    pub fn is_nan(&self) -> (r: bool)
        ensures
            r == spec_affine_nan(*self),
    {
        self.a.is_nan() || self.b.is_nan() || self.c.is_nan() || self.d.is_nan()
            || self.e.is_nan() || self.f.is_nan()
    }
}

} // verus!
