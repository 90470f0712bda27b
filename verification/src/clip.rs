use vstd::prelude::*;

use crate::geometry::{
    spec_affine_finite, spec_affine_nan, spec_radii_finite, spec_radii_nan, spec_rect_abs,
    spec_rect_finite, spec_rect_inflate, spec_rect_nan, spec_transform_rect_bbox, Affine, Point,
    Rect, RoundedRect, RoundedRectRadii,
};
use crate::path::{spec_path_bounding_box, spec_path_finite, spec_path_nan, BezPath, PathEl};
use crate::scalar::{spec_abs, spec_add, spec_max, spec_mul, spec_sub, Scalar};
use crate::stroke::{spec_stroke_eq, Stroke};
use crate::style::Fill;

verus! {

/// Raw fixed-point value of the control-point ratio used to draw a quarter
/// arc as one cubic Bezier segment: `(4 / 3) * (sqrt(2) - 1)`, about
/// `0.5523`, in units of `1 / 65536`.
pub const KAPPA_RAW: i64 = 36195;

/// Geometry payload used by [`Clip`] operations.
///
/// This enum captures the shape before any operation-specific
/// interpretation. For [`Clip::Fill`], the geometry interior is used
/// directly. For [`Clip::Stroke`], the geometry is first stroked and the
/// resulting outline is used as the clip region.
#[derive(Debug)]
pub enum ClipGeometry {
    /// Axis-aligned rectangle.
    Rect(Rect),
    /// Axis-aligned rounded rectangle.
    RoundedRect(RoundedRect),
    /// General path.
    Path(BezPath),
}

/// Every numeric field of the geometry is finite.
pub open spec fn spec_geometry_finite(g: ClipGeometry) -> bool {
    match g {
        ClipGeometry::Rect(r) => spec_rect_finite(r),
        ClipGeometry::RoundedRect(rr) => spec_rect_finite(rr.rect) && spec_radii_finite(rr.radii),
        ClipGeometry::Path(p) => spec_path_finite(p@),
    }
}

/// Some numeric field of the geometry is `NaN`.
pub open spec fn spec_geometry_nan(g: ClipGeometry) -> bool {
    match g {
        ClipGeometry::Rect(r) => spec_rect_nan(r),
        ClipGeometry::RoundedRect(rr) => spec_rect_nan(rr.rect) || spec_radii_nan(rr.radii),
        ClipGeometry::Path(p) => spec_path_nan(p@),
    }
}

/// The raw bounding box of the geometry, before the finiteness filter:
/// a plain rectangle stands for itself, a rounded rectangle for its
/// normalized outer rectangle, and a path for the tight box of its
/// segments, curve extrema included.
pub open spec fn spec_geometry_raw_bounds(g: ClipGeometry) -> Rect {
    match g {
        ClipGeometry::Rect(r) => r,
        ClipGeometry::RoundedRect(rr) => spec_rect_abs(rr.rect),
        ClipGeometry::Path(p) => spec_path_bounding_box(p@),
    }
}

/// The bounding box of the geometry, or `None` when it is not finite.
pub open spec fn spec_geometry_bounds(g: ClipGeometry) -> Option<Rect> {
    let b = spec_geometry_raw_bounds(g);
    if spec_rect_finite(b) {
        Some(b)
    } else {
        None
    }
}

/// The path outline of a plain rectangle: its four corners joined by lines.
pub open spec fn spec_rect_path(r: Rect) -> Seq<PathEl> {
    seq![
        PathEl::MoveTo(Point { x: r.x0, y: r.y0 }),
        PathEl::LineTo(Point { x: r.x1, y: r.y0 }),
        PathEl::LineTo(Point { x: r.x1, y: r.y1 }),
        PathEl::LineTo(Point { x: r.x0, y: r.y1 }),
        PathEl::ClosePath,
    ]
}

/// The path outline of a rounded rectangle: the four sides joined by one
/// cubic Bezier quarter arc per corner, using the standard control-point
/// ratio [`KAPPA_RAW`].
pub open spec fn spec_rounded_rect_path(rr: RoundedRect) -> Seq<PathEl> {
    let k = Scalar::Finite(KAPPA_RAW);
    let x0 = rr.rect.x0;
    let y0 = rr.rect.y0;
    let x1 = rr.rect.x1;
    let y1 = rr.rect.y1;
    let tl = rr.radii.top_left;
    let tr = rr.radii.top_right;
    let br = rr.radii.bottom_right;
    let bl = rr.radii.bottom_left;
    let ktl = spec_mul(tl, k);
    let ktr = spec_mul(tr, k);
    let kbr = spec_mul(br, k);
    let kbl = spec_mul(bl, k);
    seq![
        PathEl::MoveTo(Point { x: spec_add(x0, tl), y: y0 }),
        PathEl::LineTo(Point { x: spec_sub(x1, tr), y: y0 }),
        PathEl::CurveTo(
            Point { x: spec_add(spec_sub(x1, tr), ktr), y: y0 },
            Point { x: x1, y: spec_sub(spec_add(y0, tr), ktr) },
            Point { x: x1, y: spec_add(y0, tr) },
        ),
        PathEl::LineTo(Point { x: x1, y: spec_sub(y1, br) }),
        PathEl::CurveTo(
            Point { x: x1, y: spec_add(spec_sub(y1, br), kbr) },
            Point { x: spec_add(spec_sub(x1, br), kbr), y: y1 },
            Point { x: spec_sub(x1, br), y: y1 },
        ),
        PathEl::LineTo(Point { x: spec_add(x0, bl), y: y1 }),
        PathEl::CurveTo(
            Point { x: spec_sub(spec_add(x0, bl), kbl), y: y1 },
            Point { x: x0, y: spec_add(spec_sub(y1, bl), kbl) },
            Point { x: x0, y: spec_sub(y1, bl) },
        ),
        PathEl::LineTo(Point { x: x0, y: spec_add(y0, tl) }),
        PathEl::CurveTo(
            Point { x: x0, y: spec_sub(spec_add(y0, tl), ktl) },
            Point { x: spec_sub(spec_add(x0, tl), ktl), y: y0 },
            Point { x: spec_add(x0, tl), y: y0 },
        ),
        PathEl::ClosePath,
    ]
}

/// The elements of the path form of the geometry: a rectangle becomes its
/// outline, a rounded rectangle its outline with one cubic arc per corner,
/// and a path stays as it is.
pub open spec fn spec_geometry_to_path(g: ClipGeometry) -> Seq<PathEl> {
    match g {
        ClipGeometry::Rect(r) => spec_rect_path(r),
        ClipGeometry::RoundedRect(rr) => spec_rounded_rect_path(rr),
        ClipGeometry::Path(p) => p@,
    }
}

impl ClipGeometry {
    /// Is this clip geometry finite?
    pub fn is_finite(&self) -> (r: bool)
        ensures
            r == spec_geometry_finite(*self),
    {
        match self {
            Self::Rect(r) => r.is_finite(),
            Self::RoundedRect(rr) => rr.is_finite(),
            Self::Path(p) => p.is_finite(),
        }
    }

    /// Is this clip geometry NaN?
    pub fn is_nan(&self) -> (r: bool)
        ensures
            r == spec_geometry_nan(*self),
    {
        match self {
            Self::Rect(r) => r.is_nan(),
            Self::RoundedRect(rr) => rr.is_nan(),
            Self::Path(p) => p.is_nan(),
        }
    }

    /// Convert a geometry payload into a path.
    ///
    /// Rounded corners are approximated by one cubic Bezier segment each,
    /// with the guarantee that the segment deviates from the true quarter
    /// arc by less than `radius / 3000`. Exact-arithmetic scalars cannot
    /// place the subdivision points of a finer arc flattening (their
    /// coordinates are irrational), so the construction is fixed and the
    /// `tolerance` argument does not refine it further: the stated bound
    /// is the guarantee, whatever tolerance is passed. `Path` payloads are
    /// returned unchanged.
    pub fn to_path(&self, tolerance: Scalar) -> (r: BezPath)
        ensures
            r@ == spec_geometry_to_path(*self),
    {
        let _ = tolerance;
        match self {
            Self::Rect(r) => rect_to_path(r),
            Self::RoundedRect(rr) => rounded_rect_to_path(rr),
            Self::Path(p) => p.clone(),
        }
    }

    /// Conservative axis-aligned bounds of this geometry.
    ///
    /// Returns `None` if the geometry bounds are non-finite.
    pub fn bounds(&self) -> (r: Option<Rect>)
        ensures
            r == spec_geometry_bounds(*self),
    {
        let bounds = match self {
            Self::Rect(r) => *r,
            Self::RoundedRect(rr) => rr.bounding_box(),
            Self::Path(p) => p.bounding_box(),
        };
        if bounds.is_finite() {
            Some(bounds)
        } else {
            None
        }
    }
}

impl Clone for ClipGeometry {
    /// A clone holds an equal geometry.
    fn clone(&self) -> (res: Self)
        ensures
            spec_geometry_eq(res, *self),
    {
        match self {
            Self::Rect(r) => Self::Rect(*r),
            Self::RoundedRect(rr) => Self::RoundedRect(*rr),
            Self::Path(p) => Self::Path(p.clone()),
        }
    }
}

impl PartialEq for ClipGeometry {
    /// Geometries are equal when they are the same variant with equal
    /// contents; `NaN` coordinates compare by representation, as fields do.
    fn eq(&self, other: &Self) -> (r: bool) {
        match (self, other) {
            (Self::Rect(a), Self::Rect(b)) => a == b,
            (Self::RoundedRect(a), Self::RoundedRect(b)) => a == b,
            (Self::Path(a), Self::Path(b)) => a == b,
            _ => false,
        }
    }
}

/// Equality of geometries: the same variant with equal contents.
pub open spec fn spec_geometry_eq(a: ClipGeometry, b: ClipGeometry) -> bool {
    match (a, b) {
        (ClipGeometry::Rect(x), ClipGeometry::Rect(y)) => x == y,
        (ClipGeometry::RoundedRect(x), ClipGeometry::RoundedRect(y)) => x == y,
        (ClipGeometry::Path(x), ClipGeometry::Path(y)) => x@ == y@,
        _ => false,
    }
}

impl vstd::std_specs::cmp::PartialEqSpecImpl for ClipGeometry {
    open spec fn obeys_eq_spec() -> bool {
        true
    }

    open spec fn eq_spec(&self, other: &Self) -> bool {
        spec_geometry_eq(*self, *other)
    }
}

/// A clip operation pushed onto the non-isolated clip stack.
#[derive(Debug)]
pub enum Clip {
    /// Clip to the fill region of a shape.
    Fill {
        /// Transform applied to the clip shape.
        ///
        /// This does not affect subsequent draws; it only affects how the
        /// clip shape is interpreted.
        transform: Affine,
        /// Shape used to define the clip region.
        shape: ClipGeometry,
        /// Fill rule used to determine the interior for path clips.
        fill_rule: Fill,
    },
    /// Clip to the filled outline of a stroked shape.
    Stroke {
        /// Transform applied to the clip shape.
        ///
        /// This does not affect subsequent draws; it only affects how the
        /// clip shape is interpreted.
        transform: Affine,
        /// Shape whose stroked outline defines the clip region.
        shape: ClipGeometry,
        /// Stroke style used to compute the outline (including dashes).
        stroke: Stroke,
    },
}

impl Clone for Clip {
    /// A clone holds an equal clip.
    fn clone(&self) -> (res: Self)
        ensures
            spec_clip_eq(res, *self),
    {
        match self {
            Self::Fill { transform, shape, fill_rule } => Self::Fill {
                transform: *transform,
                shape: shape.clone(),
                fill_rule: *fill_rule,
            },
            Self::Stroke { transform, shape, stroke } => Self::Stroke {
                transform: *transform,
                shape: shape.clone(),
                stroke: stroke.clone(),
            },
        }
    }
}

impl PartialEq for Clip {
    /// Clips are equal when they are the same variant with equal
    /// transform, shape, and fill rule or stroke.
    fn eq(&self, other: &Self) -> (r: bool) {
        match (self, other) {
            (
                Self::Fill { transform: t1, shape: s1, fill_rule: f1 },
                Self::Fill { transform: t2, shape: s2, fill_rule: f2 },
            ) => t1 == t2 && s1 == s2 && f1 == f2,
            (
                Self::Stroke { transform: t1, shape: s1, stroke: k1 },
                Self::Stroke { transform: t2, shape: s2, stroke: k2 },
            ) => t1 == t2 && s1 == s2 && k1 == k2,
            _ => false,
        }
    }
}

/// Equality of clips: the same variant with equal transform, shape, and
/// fill rule or stroke.
pub open spec fn spec_clip_eq(a: Clip, b: Clip) -> bool {
    match (a, b) {
        (
            Clip::Fill { transform: t1, shape: s1, fill_rule: f1 },
            Clip::Fill { transform: t2, shape: s2, fill_rule: f2 },
        ) => t1 == t2 && spec_geometry_eq(s1, s2) && f1 == f2,
        (
            Clip::Stroke { transform: t1, shape: s1, stroke: k1 },
            Clip::Stroke { transform: t2, shape: s2, stroke: k2 },
        ) => t1 == t2 && spec_geometry_eq(s1, s2) && spec_stroke_eq(k1, k2),
        _ => false,
    }
}

impl vstd::std_specs::cmp::PartialEqSpecImpl for Clip {
    open spec fn obeys_eq_spec() -> bool {
        true
    }

    open spec fn eq_spec(&self, other: &Self) -> bool {
        spec_clip_eq(*self, *other)
    }
}

/// The transform carried by a clip.
pub open spec fn spec_clip_transform(c: Clip) -> Affine {
    match c {
        Clip::Fill { transform, .. } => transform,
        Clip::Stroke { transform, .. } => transform,
    }
}

/// The shape carried by a clip.
pub open spec fn spec_clip_shape(c: Clip) -> ClipGeometry {
    match c {
        Clip::Fill { shape, .. } => shape,
        Clip::Stroke { shape, .. } => shape,
    }
}

/// Every numeric field of the stroke is finite, the dash pattern included.
pub open spec fn spec_stroke_finite(s: Stroke) -> bool {
    s.width is Finite && s.miter_limit is Finite && s.dash_offset is Finite && (forall|i: int|
        0 <= i < s.dash_pattern@.len() ==> (#[trigger] s.dash_pattern@[i]) is Finite)
}

/// Some numeric field of the stroke is `NaN`, the dash pattern included.
pub open spec fn spec_stroke_nan(s: Stroke) -> bool {
    s.width is NaN || s.miter_limit is NaN || s.dash_offset is NaN || (exists|i: int|
        0 <= i < s.dash_pattern@.len() && (#[trigger] s.dash_pattern@[i]) is NaN)
}

/// The conservative stroke outset: half the absolute width, times the
/// absolute miter limit (at least one). This over-estimates the expansion a
/// stroke can cause, covering half-width growth and worst-case miter
/// spikes; it is meant for culling, not for exact bounds.
pub open spec fn spec_stroke_outset(s: Stroke) -> Scalar {
    spec_mul(
        spec_mul(Scalar::Finite(32768i64), spec_abs(s.width)),
        spec_max(spec_abs(s.miter_limit), Scalar::Finite(65536i64)),
    )
}

/// The shape bounds expanded by the stroke outset on all four sides, or
/// `None` when the stroke parameters or the expanded rectangle are not
/// finite.
pub open spec fn spec_stroke_bounds(bounds: Rect, s: Stroke) -> Option<Rect> {
    if !spec_stroke_finite(s) {
        None
    } else {
        let outset = spec_stroke_outset(s);
        let expanded = spec_rect_inflate(bounds, outset, outset);
        if spec_rect_finite(expanded) {
            Some(expanded)
        } else {
            None
        }
    }
}

/// Every numeric input of the clip is finite. The fill rule carries no
/// numeric state and is not consulted.
pub open spec fn spec_clip_finite(c: Clip) -> bool {
    match c {
        Clip::Fill { transform, shape, .. } => spec_affine_finite(transform)
            && spec_geometry_finite(shape),
        Clip::Stroke { transform, shape, stroke } => spec_affine_finite(transform)
            && spec_geometry_finite(shape) && spec_stroke_finite(stroke),
    }
}

/// Some numeric input of the clip is `NaN`.
pub open spec fn spec_clip_nan(c: Clip) -> bool {
    match c {
        Clip::Fill { transform, shape, .. } => spec_affine_nan(transform) || spec_geometry_nan(
            shape,
        ),
        Clip::Stroke { transform, shape, stroke } => spec_affine_nan(transform)
            || spec_geometry_nan(shape) || spec_stroke_nan(stroke),
    }
}

/// The conservative, transform-applied bounding box of the clip region:
/// the shape bounds, expanded by the stroke outset for stroke clips, then
/// mapped through the transform by taking the box of the four transformed
/// corners. `None` whenever a required input or the result is not finite.
pub open spec fn spec_clip_bounds(c: Clip) -> Option<Rect> {
    match c {
        Clip::Fill { transform, shape, .. } => match spec_geometry_bounds(shape) {
            None => None,
            Some(b) => {
                let t = spec_transform_rect_bbox(transform, b);
                if spec_rect_finite(t) {
                    Some(t)
                } else {
                    None
                }
            },
        },
        Clip::Stroke { transform, shape, stroke } => match spec_geometry_bounds(shape) {
            None => None,
            Some(b) => match spec_stroke_bounds(b, stroke) {
                None => None,
                Some(e) => {
                    let t = spec_transform_rect_bbox(transform, e);
                    if spec_rect_finite(t) {
                        Some(t)
                    } else {
                        None
                    }
                },
            },
        },
    }
}

impl Clip {
    /// Conservative axis-aligned bounds of this clip after applying the
    /// transform.
    ///
    /// Returns `None` if any inputs needed for bounds are non-finite.
    pub fn bounds(&self) -> (r: Option<Rect>)
        ensures
            r == spec_clip_bounds(*self),
    {
        match self {
            Self::Fill { transform, shape, .. } => {
                match shape.bounds() {
                    None => None,
                    Some(b) => {
                        let t = transform.transform_rect_bbox(b);
                        if t.is_finite() {
                            Some(t)
                        } else {
                            None
                        }
                    },
                }
            },
            Self::Stroke { transform, shape, stroke } => {
                match shape.bounds() {
                    None => None,
                    Some(b) => {
                        match stroke_bounds(b, stroke) {
                            None => None,
                            Some(e) => {
                                let t = transform.transform_rect_bbox(e);
                                if t.is_finite() {
                                    Some(t)
                                } else {
                                    None
                                }
                            },
                        }
                    },
                }
            },
        }
    }

    /// Is this clip finite?
    pub fn is_finite(&self) -> (r: bool)
        ensures
            r == spec_clip_finite(*self),
    {
        match self {
            Self::Fill { transform, shape, .. } => transform.is_finite() && shape.is_finite(),
            Self::Stroke { transform, shape, stroke } => transform.is_finite()
                && shape.is_finite() && stroke_is_finite(stroke),
        }
    }

    /// Is this clip NaN?
    pub fn is_nan(&self) -> (r: bool)
        ensures
            r == spec_clip_nan(*self),
    {
        match self {
            Self::Fill { transform, shape, .. } => transform.is_nan() || shape.is_nan(),
            Self::Stroke { transform, shape, stroke } => transform.is_nan() || shape.is_nan()
                || stroke_is_nan(stroke),
        }
    }
}

fn stroke_is_finite(stroke: &Stroke) -> (r: bool)
    ensures
        r == spec_stroke_finite(*stroke),
{
    if !(stroke.width.is_finite() && stroke.miter_limit.is_finite()
        && stroke.dash_offset.is_finite()) {
        return false;
    }
    let n: usize = stroke.dash_pattern.len();
    let mut i: usize = 0;
    while i < n
        invariant
            0 <= i <= n,
            n == stroke.dash_pattern@.len(),
            forall|j: int| 0 <= j < i ==> (#[trigger] stroke.dash_pattern@[j]) is Finite,
        decreases n - i,
    {
        if !stroke.dash_pattern[i].is_finite() {
            return false;
        }
        i += 1;
    }
    true
}

fn stroke_is_nan(stroke: &Stroke) -> (r: bool)
    ensures
        r == spec_stroke_nan(*stroke),
{
    if stroke.width.is_nan() || stroke.miter_limit.is_nan() || stroke.dash_offset.is_nan() {
        return true;
    }
    let n: usize = stroke.dash_pattern.len();
    let mut i: usize = 0;
    while i < n
        invariant
            0 <= i <= n,
            n == stroke.dash_pattern@.len(),
            forall|j: int| 0 <= j < i ==> !((#[trigger] stroke.dash_pattern@[j]) is NaN),
        decreases n - i,
    {
        if stroke.dash_pattern[i].is_nan() {
            return true;
        }
        i += 1;
    }
    false
}

fn stroke_bounds(bounds: Rect, stroke: &Stroke) -> (r: Option<Rect>)
    ensures
        r == spec_stroke_bounds(bounds, *stroke),
{
    if !stroke_is_finite(stroke) {
        return None;
    }
    // Conservative outset to account for width, caps, and miter joins.
    let outset = Scalar::half().mul(stroke.width.abs()).mul(
        stroke.miter_limit.abs().max(Scalar::one()),
    );
    let expanded = bounds.inflate(outset, outset);
    if expanded.is_finite() {
        Some(expanded)
    } else {
        None
    }
}

fn rect_to_path(r: &Rect) -> (p: BezPath)
    ensures
        p@ == spec_rect_path(*r),
{
    let mut path = BezPath::new();
    path.move_to(Point::new(r.x0, r.y0));
    path.line_to(Point::new(r.x1, r.y0));
    path.line_to(Point::new(r.x1, r.y1));
    path.line_to(Point::new(r.x0, r.y1));
    path.close_path();
    proof {
        assert(path@ =~= spec_rect_path(*r));
    }
    path
}

fn rounded_rect_to_path(rr: &RoundedRect) -> (p: BezPath)
    ensures
        p@ == spec_rounded_rect_path(*rr),
{
    let k = Scalar::from_fixed(KAPPA_RAW);
    let x0 = rr.rect.x0;
    let y0 = rr.rect.y0;
    let x1 = rr.rect.x1;
    let y1 = rr.rect.y1;
    let tl = rr.radii.top_left;
    let tr = rr.radii.top_right;
    let br = rr.radii.bottom_right;
    let bl = rr.radii.bottom_left;
    let ktl = tl.mul(k);
    let ktr = tr.mul(k);
    let kbr = br.mul(k);
    let kbl = bl.mul(k);
    let mut path = BezPath::new();
    path.move_to(Point::new(x0.add(tl), y0));
    path.line_to(Point::new(x1.sub(tr), y0));
    path.curve_to(
        Point::new(x1.sub(tr).add(ktr), y0),
        Point::new(x1, y0.add(tr).sub(ktr)),
        Point::new(x1, y0.add(tr)),
    );
    path.line_to(Point::new(x1, y1.sub(br)));
    path.curve_to(
        Point::new(x1, y1.sub(br).add(kbr)),
        Point::new(x1.sub(br).add(kbr), y1),
        Point::new(x1.sub(br), y1),
    );
    path.line_to(Point::new(x0.add(bl), y1));
    path.curve_to(
        Point::new(x0.add(bl).sub(kbl), y1),
        Point::new(x0, y1.sub(bl).add(kbl)),
        Point::new(x0, y1.sub(bl)),
    );
    path.line_to(Point::new(x0, y0.add(tl)));
    path.curve_to(
        Point::new(x0, y0.add(tl).sub(ktl)),
        Point::new(x0.add(tl).sub(ktl), y0),
        Point::new(x0.add(tl), y0),
    );
    path.close_path();
    proof {
        assert(path@ =~= spec_rounded_rect_path(*rr));
    }
    path
}

/// Any transform coefficient is positive infinity.
pub open spec fn spec_affine_has_pos_inf(t: Affine) -> bool {
    t.a is PosInf || t.b is PosInf || t.c is PosInf || t.d is PosInf || t.e is PosInf
        || t.f is PosInf
}

/// A fill clip built from a finite transform and a finite shape is finite,
/// whatever the fill rule: the fill rule carries no numeric state.
pub proof fn lemma_fill_of_finite_parts_is_finite(
    transform: Affine,
    shape: ClipGeometry,
    fill_rule: Fill,
)
    requires
        spec_affine_finite(transform),
        spec_geometry_finite(shape),
    ensures
        spec_clip_finite(Clip::Fill { transform, shape, fill_rule }),
{
}

/// A clip whose transform has a `NaN` coefficient is `NaN` and not finite,
/// whichever variant it is and whatever the rest of its fields hold.
pub proof fn lemma_nan_transform_poisons_clip(c: Clip)
    requires
        spec_affine_nan(spec_clip_transform(c)),
    ensures
        spec_clip_nan(c),
        !spec_clip_finite(c),
{
}

/// A clip whose transform has a positively infinite coefficient, and which
/// holds no `NaN` anywhere, is not finite and yet not `NaN`: infinity and
/// `NaN` are independent conditions.
pub proof fn lemma_infinite_transform_is_not_nan(c: Clip)
    requires
        spec_affine_has_pos_inf(spec_clip_transform(c)),
        !spec_clip_nan(c),
    ensures
        !spec_clip_finite(c),
        !spec_clip_nan(c),
{
    match c {
        Clip::Fill { transform, .. } => {
            assert(!spec_affine_finite(transform));
        },
        Clip::Stroke { transform, .. } => {
            assert(!spec_affine_finite(transform));
        },
    }
}

/// Geometry bounds are a pure function of the geometry value: two equal
/// geometries, a clone and the value it was cloned from among them, have
/// equal bounds, so computing bounds twice yields identical results.
pub proof fn lemma_geometry_bounds_pure(g1: ClipGeometry, g2: ClipGeometry)
    requires
        spec_geometry_eq(g1, g2),
    ensures
        spec_geometry_bounds(g1) == spec_geometry_bounds(g2),
{
}

/// A stroke clip whose dash pattern contains a `NaN` entry has no bounds
/// and is not finite.
pub proof fn lemma_nan_dash_poisons_stroke_clip(
    transform: Affine,
    shape: ClipGeometry,
    stroke: Stroke,
)
    requires
        exists|i: int|
            0 <= i < stroke.dash_pattern@.len() && (#[trigger] stroke.dash_pattern@[i]) is NaN,
    ensures
        spec_clip_bounds(Clip::Stroke { transform, shape, stroke }) == None::<Rect>,
        !spec_clip_finite(Clip::Stroke { transform, shape, stroke }),
{
    let i = choose|i: int|
        0 <= i < stroke.dash_pattern@.len() && (#[trigger] stroke.dash_pattern@[i]) is NaN;
    assert(!((stroke.dash_pattern@[i]) is Finite));
    assert(!spec_stroke_finite(stroke));
}

/// A rounded rectangle whose corner radii are all zero has the bounds of
/// its outer rectangle: degenerate rounding collapses to plain rectangle
/// bounds.
pub proof fn lemma_zero_radius_rounded_rect_bounds(rr: RoundedRect)
    requires
        rr.radii == (RoundedRectRadii {
            top_left: Scalar::Finite(0i64),
            top_right: Scalar::Finite(0i64),
            bottom_right: Scalar::Finite(0i64),
            bottom_left: Scalar::Finite(0i64),
        }),
        spec_rect_finite(rr.rect),
        spec_rect_abs(rr.rect) == rr.rect,
    ensures
        spec_geometry_bounds(ClipGeometry::RoundedRect(rr)) == Some(rr.rect),
{
}

} // verus!
