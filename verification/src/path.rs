use vstd::prelude::*;

use crate::extrema::{
    cubic_max_raw, cubic_min_raw, quad_max_raw, quad_min_raw, spec_cubic_max_raw,
    spec_cubic_min_raw, spec_quad_max_raw, spec_quad_min_raw,
};
use crate::geometry::{
    spec_point_finite, spec_point_nan, spec_rect_from_points, spec_rect_union, spec_rect_zero,
    Point, Rect,
};
use crate::scalar::{spec_max, spec_min, spec_same_value, Scalar};

verus! {

/// One element of a Bezier path.
#[derive(Clone, Copy, Debug, PartialEq, Eq, Structural)]
pub enum PathEl {
    /// Begin a new subpath at the point.
    MoveTo(Point),
    /// A straight line from the current point.
    LineTo(Point),
    /// A quadratic Bezier segment: control point, then end point.
    QuadTo(Point, Point),
    /// A cubic Bezier segment: two control points, then the end point.
    CurveTo(Point, Point, Point),
    /// Close the current subpath with a line back to its start.
    ClosePath,
}

/// Every coordinate of the element is finite.
pub open spec fn spec_el_finite(el: PathEl) -> bool {
    match el {
        PathEl::MoveTo(p) => spec_point_finite(p),
        PathEl::LineTo(p) => spec_point_finite(p),
        PathEl::QuadTo(p1, p2) => spec_point_finite(p1) && spec_point_finite(p2),
        PathEl::CurveTo(p1, p2, p3) => spec_point_finite(p1) && spec_point_finite(p2)
            && spec_point_finite(p3),
        PathEl::ClosePath => true,
    }
}

/// Some coordinate of the element is `NaN`.
pub open spec fn spec_el_nan(el: PathEl) -> bool {
    match el {
        PathEl::MoveTo(p) => spec_point_nan(p),
        PathEl::LineTo(p) => spec_point_nan(p),
        PathEl::QuadTo(p1, p2) => spec_point_nan(p1) || spec_point_nan(p2),
        PathEl::CurveTo(p1, p2, p3) => spec_point_nan(p1) || spec_point_nan(p2)
            || spec_point_nan(p3),
        PathEl::ClosePath => false,
    }
}

impl PathEl {
    /// Is every coordinate of this element finite?
    pub fn is_finite(&self) -> (r: bool)
        ensures
            r == spec_el_finite(*self),
    {
        match self {
            PathEl::MoveTo(p) => p.is_finite(),
            PathEl::LineTo(p) => p.is_finite(),
            PathEl::QuadTo(p1, p2) => p1.is_finite() && p2.is_finite(),
            PathEl::CurveTo(p1, p2, p3) => p1.is_finite() && p2.is_finite() && p3.is_finite(),
            PathEl::ClosePath => true,
        }
    }

    /// Is some coordinate of this element `NaN`?
    pub fn is_nan(&self) -> (r: bool)
        ensures
            r == spec_el_nan(*self),
    {
        match self {
            PathEl::MoveTo(p) => p.is_nan(),
            PathEl::LineTo(p) => p.is_nan(),
            PathEl::QuadTo(p1, p2) => p1.is_nan() || p2.is_nan(),
            PathEl::CurveTo(p1, p2, p3) => p1.is_nan() || p2.is_nan() || p3.is_nan(),
            PathEl::ClosePath => false,
        }
    }
}

/// Every element of the sequence is finite.
pub open spec fn spec_path_finite(els: Seq<PathEl>) -> bool {
    forall|i: int| 0 <= i < els.len() ==> spec_el_finite(#[trigger] els[i])
}

/// Some element of the sequence has a `NaN` coordinate.
pub open spec fn spec_path_nan(els: Seq<PathEl>) -> bool {
    exists|i: int| 0 <= i < els.len() && spec_el_nan(#[trigger] els[i])
}

/// Two points carry the same numeric coordinates; false when a `NaN` is
/// involved.
pub open spec fn spec_point_same(a: Point, b: Point) -> bool {
    spec_same_value(a.x, b.x) && spec_same_value(a.y, b.y)
}

/// Conservative box of a line segment: the rectangle spanned by its
/// endpoints.
pub open spec fn spec_box_line(p0: Point, p1: Point) -> Rect {
    spec_rect_from_points(p0, p1)
}

/// Tight range start of a quadratic segment on one axis: the extremum at
/// the derivative's interior root, computed in exact rational arithmetic
/// and rounded down to the raw grid, when all three values are finite;
/// otherwise the minimum of the control values under the `NaN`-dropping
/// rules, as the arithmetic extremum is meaningless there.
pub open spec fn spec_quad_axis_min(a: Scalar, b: Scalar, c: Scalar) -> Scalar {
    match (a, b, c) {
        (Scalar::Finite(x), Scalar::Finite(y), Scalar::Finite(z)) => Scalar::Finite(
            spec_quad_min_raw(x as int, y as int, z as int) as i64,
        ),
        _ => spec_min(spec_min(a, c), b),
    }
}

/// Tight range end of a quadratic segment on one axis; the dual of
/// [`spec_quad_axis_min`], rounding up.
pub open spec fn spec_quad_axis_max(a: Scalar, b: Scalar, c: Scalar) -> Scalar {
    match (a, b, c) {
        (Scalar::Finite(x), Scalar::Finite(y), Scalar::Finite(z)) => Scalar::Finite(
            spec_quad_max_raw(x as int, y as int, z as int) as i64,
        ),
        _ => spec_max(spec_max(a, c), b),
    }
}

/// Tight range start of a cubic segment on one axis: the endpoint values
/// refined by the curve's values at the derivative's root cells, rounded
/// down, when all four values are finite; otherwise the minimum of the
/// control values under the `NaN`-dropping rules.
pub open spec fn spec_cubic_axis_min(a: Scalar, b: Scalar, c: Scalar, d: Scalar) -> Scalar {
    match (a, b, c, d) {
        (Scalar::Finite(v0), Scalar::Finite(v1), Scalar::Finite(v2), Scalar::Finite(v3)) =>
            Scalar::Finite(spec_cubic_min_raw(v0 as int, v1 as int, v2 as int, v3 as int) as i64),
        _ => spec_min(spec_min(spec_min(a, d), b), c),
    }
}

/// Tight range end of a cubic segment on one axis; the dual of
/// [`spec_cubic_axis_min`], rounding up.
pub open spec fn spec_cubic_axis_max(a: Scalar, b: Scalar, c: Scalar, d: Scalar) -> Scalar {
    match (a, b, c, d) {
        (Scalar::Finite(v0), Scalar::Finite(v1), Scalar::Finite(v2), Scalar::Finite(v3)) =>
            Scalar::Finite(spec_cubic_max_raw(v0 as int, v1 as int, v2 as int, v3 as int) as i64),
        _ => spec_max(spec_max(spec_max(a, d), b), c),
    }
}

/// Tight box of a quadratic segment: per axis, the range spanned by the
/// endpoints and the curve's interior extremum — not the control polygon.
pub open spec fn spec_box_quad(p0: Point, p1: Point, p2: Point) -> Rect {
    Rect {
        x0: spec_quad_axis_min(p0.x, p1.x, p2.x),
        y0: spec_quad_axis_min(p0.y, p1.y, p2.y),
        x1: spec_quad_axis_max(p0.x, p1.x, p2.x),
        y1: spec_quad_axis_max(p0.y, p1.y, p2.y),
    }
}

/// Tight box of a cubic segment: per axis, the range spanned by the
/// endpoints and the curve's values at its derivative's roots — not the
/// control polygon.
pub open spec fn spec_box_cubic(p0: Point, p1: Point, p2: Point, p3: Point) -> Rect {
    Rect {
        x0: spec_cubic_axis_min(p0.x, p1.x, p2.x, p3.x),
        y0: spec_cubic_axis_min(p0.y, p1.y, p2.y, p3.y),
        x1: spec_cubic_axis_max(p0.x, p1.x, p2.x, p3.x),
        y1: spec_cubic_axis_max(p0.y, p1.y, p2.y, p3.y),
    }
}

/// Accumulate one segment box into the running union.
pub open spec fn spec_acc_union(acc: Option<Rect>, b: Rect) -> Option<Rect> {
    match acc {
        Some(a) => Some(spec_rect_union(a, b)),
        None => Some(b),
    }
}

/// One step of the bounding-box walk. The state holds the start of the
/// current subpath, the current point, and the union of the segment boxes
/// seen so far; a bare `MoveTo` contributes no box of its own.
pub open spec fn spec_bbox_step(
    st: Option<(Point, Point)>,
    acc: Option<Rect>,
    el: PathEl,
) -> (Option<(Point, Point)>, Option<Rect>) {
    match st {
        None => match el {
            PathEl::MoveTo(p) => (Some((p, p)), acc),
            PathEl::LineTo(p) => (Some((p, p)), spec_acc_union(acc, spec_box_line(p, p))),
            PathEl::QuadTo(p1, p2) => (
                Some((p2, p2)),
                spec_acc_union(acc, spec_box_quad(p2, p1, p2)),
            ),
            PathEl::CurveTo(p1, p2, p3) => (
                Some((p3, p3)),
                spec_acc_union(acc, spec_box_cubic(p3, p1, p2, p3)),
            ),
            PathEl::ClosePath => (None, acc),
        },
        Some((start, last)) => match el {
            PathEl::MoveTo(p) => (Some((p, p)), acc),
            PathEl::LineTo(p) => (Some((start, p)), spec_acc_union(acc, spec_box_line(last, p))),
            PathEl::QuadTo(p1, p2) => (
                Some((start, p2)),
                spec_acc_union(acc, spec_box_quad(last, p1, p2)),
            ),
            PathEl::CurveTo(p1, p2, p3) => (
                Some((start, p3)),
                spec_acc_union(acc, spec_box_cubic(last, p1, p2, p3)),
            ),
            PathEl::ClosePath => if !spec_point_same(last, start) {
                (Some((start, start)), spec_acc_union(acc, spec_box_line(last, start)))
            } else {
                (Some((start, last)), acc)
            },
        },
    }
}

/// The bounding-box walk state after the first `i` elements.
pub open spec fn spec_bbox_at(els: Seq<PathEl>, i: int) -> (Option<(Point, Point)>, Option<Rect>)
    decreases i,
{
    if i <= 0 {
        (None, None)
    } else {
        let prev = spec_bbox_at(els, i - 1);
        spec_bbox_step(prev.0, prev.1, els[i - 1])
    }
}

/// The bounding box of a path: the union of per-segment boxes, where a
/// curve contributes the tight range of the curve itself — its endpoints
/// and its extrema at the derivative's roots, not its control polygon. A
/// path with no segments has the all-zero box.
pub open spec fn spec_path_bounding_box(els: Seq<PathEl>) -> Rect {
    match spec_bbox_at(els, els.len() as int).1 {
        Some(r) => r,
        None => spec_rect_zero(),
    }
}

/// A path built from Bezier segments.
#[derive(Debug)]
pub struct BezPath {
    els: Vec<PathEl>,
}

impl PartialEq for BezPath {
    /// Paths are equal when they hold the same elements; `NaN` coordinates
    /// compare by representation, as fields do.
    fn eq(&self, other: &Self) -> (r: bool) {
        let n: usize = self.els.len();
        if n != other.els.len() {
            proof {
                assert(self@.len() != other@.len());
            }
            return false;
        }
        let mut i: usize = 0;
        while i < n
            invariant
                0 <= i <= n,
                n == self@.len(),
                n == other@.len(),
                forall|j: int| 0 <= j < i ==> self@[j] == other@[j],
            decreases n - i,
        {
            if self.els[i] != other.els[i] {
                return false;
            }
            i += 1;
        }
        proof {
            assert(self@ =~= other@);
        }
        true
    }
}

impl vstd::std_specs::cmp::PartialEqSpecImpl for BezPath {
    open spec fn obeys_eq_spec() -> bool {
        true
    }

    open spec fn eq_spec(&self, other: &Self) -> bool {
        self@ == other@
    }
}

impl Clone for BezPath {
    /// A clone holds exactly the same elements.
    fn clone(&self) -> (res: Self)
        ensures
            res@ == self@,
    {
        let n: usize = self.els.len();
        let mut v: Vec<PathEl> = Vec::new();
        let mut i: usize = 0;
        while i < n
            invariant
                0 <= i <= n,
                n == self@.len(),
                v@ == self@.subrange(0, i as int),
            decreases n - i,
        {
            v.push(self.els[i]);
            proof {
                assert(v@ =~= self@.subrange(0, i + 1));
            }
            i += 1;
        }
        proof {
            assert(v@ =~= self@);
        }
        BezPath { els: v }
    }
}

impl View for BezPath {
    type V = Seq<PathEl>;

    closed spec fn view(&self) -> Seq<PathEl> {
        self.els@
    }
}

impl BezPath {
    /// A new, empty path.
    pub fn new() -> (r: Self)
        ensures
            r@ == Seq::<PathEl>::empty(),
    {
        BezPath { els: Vec::new() }
    }

    /// The elements of the path.
    pub fn elements(&self) -> (r: &[PathEl])
        ensures
            r@ == self@,
    {
        self.els.as_slice()
    }

    /// Push a raw element onto the path. The first element of a path must
    /// begin a subpath.
    pub fn push(&mut self, el: PathEl)
        requires
            old(self)@.len() == 0 ==> el is MoveTo,
            old(self)@.len() > 0 ==> old(self)@[0] is MoveTo,
        ensures
            final(self)@ == old(self)@.push(el),
    {
        self.els.push(el);
    }

    /// Push a "move to" element onto the path.
    pub fn move_to(&mut self, p: Point)
        requires
            old(self)@.len() > 0 ==> old(self)@[0] is MoveTo,
        ensures
            final(self)@ == old(self)@.push(PathEl::MoveTo(p)),
    {
        self.push(PathEl::MoveTo(p));
    }

    /// Push a "line to" element onto the path, which must not be empty.
    pub fn line_to(&mut self, p: Point)
        requires
            old(self)@.len() > 0,
            old(self)@[0] is MoveTo,
        ensures
            final(self)@ == old(self)@.push(PathEl::LineTo(p)),
    {
        self.push(PathEl::LineTo(p));
    }

    /// Push a "quad to" element onto the path, which must not be empty.
    pub fn quad_to(&mut self, p1: Point, p2: Point)
        requires
            old(self)@.len() > 0,
            old(self)@[0] is MoveTo,
        ensures
            final(self)@ == old(self)@.push(PathEl::QuadTo(p1, p2)),
    {
        self.push(PathEl::QuadTo(p1, p2));
    }

    /// Push a "curve to" element onto the path, which must not be empty.
    pub fn curve_to(&mut self, p1: Point, p2: Point, p3: Point)
        requires
            old(self)@.len() > 0,
            old(self)@[0] is MoveTo,
        ensures
            final(self)@ == old(self)@.push(PathEl::CurveTo(p1, p2, p3)),
    {
        self.push(PathEl::CurveTo(p1, p2, p3));
    }

    /// Push a "close path" element onto the path, which must not be empty.
    pub fn close_path(&mut self)
        requires
            old(self)@.len() > 0,
            old(self)@[0] is MoveTo,
        ensures
            final(self)@ == old(self)@.push(PathEl::ClosePath),
    {
        self.push(PathEl::ClosePath);
    }

    /// Is every coordinate of every element finite?
    pub fn is_finite(&self) -> (r: bool)
        ensures
            r == spec_path_finite(self@),
    {
        let n: usize = self.els.len();
        let mut i: usize = 0;
        while i < n
            invariant
                0 <= i <= n,
                n == self@.len(),
                forall|j: int| 0 <= j < i ==> spec_el_finite(#[trigger] self@[j]),
            decreases n - i,
        {
            if !self.els[i].is_finite() {
                return false;
            }
            i += 1;
        }
        true
    }

    /// Does some element have a `NaN` coordinate?
    pub fn is_nan(&self) -> (r: bool)
        ensures
            r == spec_path_nan(self@),
    {
        let n: usize = self.els.len();
        let mut i: usize = 0;
        while i < n
            invariant
                0 <= i <= n,
                n == self@.len(),
                forall|j: int| 0 <= j < i ==> !spec_el_nan(#[trigger] self@[j]),
            decreases n - i,
        {
            if self.els[i].is_nan() {
                return true;
            }
            i += 1;
        }
        false
    }

    /// The bounding box of the path: the union over its segments of each
    /// segment's tight box. Straight segments span their endpoints;
    /// quadratic segments include their interior extremum, computed in
    /// exact rational arithmetic and rounded outward to the raw grid; cubic
    /// segments include their values at the derivative's roots, each root
    /// located by sign bisection in a parameter cell of width
    /// `1 / ROOT_GRID` with both cell ends sampled exactly and rounded
    /// outward. A path with no segments has the all-zero box.
    pub fn bounding_box(&self) -> (r: Rect)
        ensures
            r == spec_path_bounding_box(self@),
    {
        let n: usize = self.els.len();
        let mut st: Option<(Point, Point)> = None;
        let mut acc: Option<Rect> = None;
        let mut i: usize = 0;
        while i < n
            invariant
                0 <= i <= n,
                n == self@.len(),
                st == spec_bbox_at(self@, i as int).0,
                acc == spec_bbox_at(self@, i as int).1,
            decreases n - i,
        {
            let el = self.els[i];
            match st {
                None => {
                    match el {
                        PathEl::MoveTo(p) => {
                            st = Some((p, p));
                        },
                        PathEl::LineTo(p) => {
                            st = Some((p, p));
                            acc = acc_union(acc, Rect::from_points(p, p));
                        },
                        PathEl::QuadTo(p1, p2) => {
                            st = Some((p2, p2));
                            acc = acc_union(acc, quad_box(p2, p1, p2));
                        },
                        PathEl::CurveTo(p1, p2, p3) => {
                            st = Some((p3, p3));
                            acc = acc_union(acc, cubic_box(p3, p1, p2, p3));
                        },
                        PathEl::ClosePath => {},
                    }
                },
                Some((start, last)) => {
                    match el {
                        PathEl::MoveTo(p) => {
                            st = Some((p, p));
                        },
                        PathEl::LineTo(p) => {
                            st = Some((start, p));
                            acc = acc_union(acc, Rect::from_points(last, p));
                        },
                        PathEl::QuadTo(p1, p2) => {
                            st = Some((start, p2));
                            acc = acc_union(acc, quad_box(last, p1, p2));
                        },
                        PathEl::CurveTo(p1, p2, p3) => {
                            st = Some((start, p3));
                            acc = acc_union(acc, cubic_box(last, p1, p2, p3));
                        },
                        PathEl::ClosePath => {
                            if !point_same(last, start) {
                                st = Some((start, start));
                                acc = acc_union(acc, Rect::from_points(last, start));
                            }
                        },
                    }
                },
            }
            i += 1;
        }
        match acc {
            Some(r) => r,
            None => Rect::zero(),
        }
    }
}

fn quad_axis_min(a: Scalar, b: Scalar, c: Scalar) -> (r: Scalar)
    ensures
        r == spec_quad_axis_min(a, b, c),
{
    match (a, b, c) {
        (Scalar::Finite(x), Scalar::Finite(y), Scalar::Finite(z)) => {
            Scalar::Finite(quad_min_raw(x, y, z))
        },
        _ => a.min(c).min(b),
    }
}

fn quad_axis_max(a: Scalar, b: Scalar, c: Scalar) -> (r: Scalar)
    ensures
        r == spec_quad_axis_max(a, b, c),
{
    match (a, b, c) {
        (Scalar::Finite(x), Scalar::Finite(y), Scalar::Finite(z)) => {
            Scalar::Finite(quad_max_raw(x, y, z))
        },
        _ => a.max(c).max(b),
    }
}

fn cubic_axis_min(a: Scalar, b: Scalar, c: Scalar, d: Scalar) -> (r: Scalar)
    ensures
        r == spec_cubic_axis_min(a, b, c, d),
{
    match (a, b, c, d) {
        (Scalar::Finite(v0), Scalar::Finite(v1), Scalar::Finite(v2), Scalar::Finite(v3)) => {
            Scalar::Finite(cubic_min_raw(v0, v1, v2, v3))
        },
        _ => a.min(d).min(b).min(c),
    }
}

fn cubic_axis_max(a: Scalar, b: Scalar, c: Scalar, d: Scalar) -> (r: Scalar)
    ensures
        r == spec_cubic_axis_max(a, b, c, d),
{
    match (a, b, c, d) {
        (Scalar::Finite(v0), Scalar::Finite(v1), Scalar::Finite(v2), Scalar::Finite(v3)) => {
            Scalar::Finite(cubic_max_raw(v0, v1, v2, v3))
        },
        _ => a.max(d).max(b).max(c),
    }
}

/// The tight box of a quadratic segment from `p0` to `p2` with control
/// point `p1`.
fn quad_box(p0: Point, p1: Point, p2: Point) -> (r: Rect)
    ensures
        r == spec_box_quad(p0, p1, p2),
{
    Rect {
        x0: quad_axis_min(p0.x, p1.x, p2.x),
        y0: quad_axis_min(p0.y, p1.y, p2.y),
        x1: quad_axis_max(p0.x, p1.x, p2.x),
        y1: quad_axis_max(p0.y, p1.y, p2.y),
    }
}

/// The tight box of a cubic segment from `p0` to `p3` with control points
/// `p1` and `p2`.
fn cubic_box(p0: Point, p1: Point, p2: Point, p3: Point) -> (r: Rect)
    ensures
        r == spec_box_cubic(p0, p1, p2, p3),
{
    Rect {
        x0: cubic_axis_min(p0.x, p1.x, p2.x, p3.x),
        y0: cubic_axis_min(p0.y, p1.y, p2.y, p3.y),
        x1: cubic_axis_max(p0.x, p1.x, p2.x, p3.x),
        y1: cubic_axis_max(p0.y, p1.y, p2.y, p3.y),
    }
}

/// Accumulate one segment box into the running union.
fn acc_union(acc: Option<Rect>, b: Rect) -> (r: Option<Rect>)
    ensures
        r == spec_acc_union(acc, b),
{
    match acc {
        Some(a) => Some(a.union(b)),
        None => Some(b),
    }
}

/// Do two points carry the same numeric coordinates? False when a `NaN` is
/// involved.
fn point_same(a: Point, b: Point) -> (r: bool)
    ensures
        r == spec_point_same(a, b),
{
    a.x.same_value(b.x) && a.y.same_value(b.y)
}

} // verus!
