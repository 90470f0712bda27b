use peniko::{Affine, BezPath, Clip, ClipGeometry, Fill, PathEl, Point, Rect, RoundedRect,
    RoundedRectRadii, Scalar, Stroke};

/// A scalar from a floating-point test value; every value used in these
/// tests is exactly representable in the library's fixed-point scalars.
fn sc(v: f64) -> Scalar {
    if v.is_nan() {
        Scalar::nan()
    } else if v == f64::INFINITY {
        Scalar::infinity()
    } else if v == f64::NEG_INFINITY {
        Scalar::neg_infinity()
    } else {
        Scalar::from_fixed((v * 65536.0) as i64)
    }
}

fn pt(x: f64, y: f64) -> Point {
    Point::new(sc(x), sc(y))
}

fn rect(x0: f64, y0: f64, x1: f64, y1: f64) -> Rect {
    Rect::new(sc(x0), sc(y0), sc(x1), sc(y1))
}

fn affine(c: [f64; 6]) -> Affine {
    Affine::new(sc(c[0]), sc(c[1]), sc(c[2]), sc(c[3]), sc(c[4]), sc(c[5]))
}

fn translate(x: f64, y: f64) -> Affine {
    Affine::translate(sc(x), sc(y))
}

#[test]
fn fill_is_finite_depends_on_transform_and_shape() {
    let mut non_finite_path = BezPath::new();
    non_finite_path.move_to(pt(0.0, 0.0));
    non_finite_path.line_to(pt(f64::INFINITY, 1.0));

    let finite = Clip::Fill {
        transform: translate(3.0, -2.0),
        shape: ClipGeometry::Rect(rect(0.0, 0.0, 10.0, 4.0)),
        fill_rule: Fill::NonZero,
    };
    let non_finite_transform = Clip::Fill {
        transform: affine([f64::NAN, 0.0, 0.0, 1.0, 0.0, 0.0]),
        shape: ClipGeometry::Rect(rect(0.0, 0.0, 10.0, 4.0)),
        fill_rule: Fill::NonZero,
    };
    let non_finite_shape = Clip::Fill {
        transform: Affine::identity(),
        shape: ClipGeometry::Path(non_finite_path),
        fill_rule: Fill::NonZero,
    };

    assert!(finite.is_finite());
    assert!(!non_finite_transform.is_finite());
    assert!(!non_finite_shape.is_finite());
}

#[test]
fn fill_is_nan_depends_on_transform_and_shape() {
    let finite = Clip::Fill {
        transform: translate(3.0, -2.0),
        shape: ClipGeometry::Rect(rect(0.0, 0.0, 10.0, 4.0)),
        fill_rule: Fill::NonZero,
    };
    let nan_transform = Clip::Fill {
        transform: affine([f64::NAN, 0.0, 0.0, 1.0, 0.0, 0.0]),
        shape: ClipGeometry::Rect(rect(0.0, 0.0, 10.0, 4.0)),
        fill_rule: Fill::NonZero,
    };
    let nan_shape = Clip::Fill {
        transform: Affine::identity(),
        shape: ClipGeometry::Rect(rect(0.0, 0.0, f64::NAN, 1.0)),
        fill_rule: Fill::NonZero,
    };
    let infinite_transform = Clip::Fill {
        transform: affine([f64::INFINITY, 0.0, 0.0, 1.0, 0.0, 0.0]),
        shape: ClipGeometry::Rect(rect(0.0, 0.0, 10.0, 4.0)),
        fill_rule: Fill::NonZero,
    };

    assert!(!finite.is_nan());
    assert!(nan_transform.is_nan());
    assert!(nan_shape.is_nan());
    assert!(!infinite_transform.is_nan());
}

#[test]
fn stroke_is_finite_depends_on_transform_and_shape() {
    let finite = Clip::Stroke {
        transform: Affine::scale(sc(2.0)),
        shape: ClipGeometry::RoundedRect(RoundedRect::from_rect_radius(
            rect(-1.0, -1.0, 1.0, 1.0),
            sc(0.25),
        )),
        stroke: Stroke::new(sc(3.0)),
    };
    let non_finite_transform = Clip::Stroke {
        transform: affine([1.0, 0.0, 0.0, f64::NEG_INFINITY, 0.0, 0.0]),
        shape: ClipGeometry::RoundedRect(RoundedRect::from_rect_radius(
            rect(-1.0, -1.0, 1.0, 1.0),
            sc(0.25),
        )),
        stroke: Stroke::new(sc(3.0)),
    };
    let non_finite_shape = Clip::Stroke {
        transform: Affine::identity(),
        shape: ClipGeometry::Rect(rect(0.0, 0.0, f64::NAN, 1.0)),
        stroke: Stroke::new(sc(3.0)),
    };
    let non_finite_stroke = Clip::Stroke {
        transform: Affine::identity(),
        shape: ClipGeometry::Rect(rect(0.0, 0.0, 1.0, 1.0)),
        stroke: Stroke::new(sc(f64::INFINITY)),
    };
    let non_finite_dash_pattern = Clip::Stroke {
        transform: Affine::identity(),
        shape: ClipGeometry::Rect(rect(0.0, 0.0, 1.0, 1.0)),
        stroke: Stroke::new(sc(2.0)).with_dashes(sc(0.0), vec![sc(1.0), sc(f64::NAN)]),
    };

    assert!(finite.is_finite());
    assert!(!non_finite_transform.is_finite());
    assert!(!non_finite_shape.is_finite());
    assert!(!non_finite_stroke.is_finite());
    assert!(!non_finite_dash_pattern.is_finite());
}

#[test]
fn stroke_is_nan_depends_on_transform_shape_and_stroke() {
    let finite = Clip::Stroke {
        transform: Affine::scale(sc(2.0)),
        shape: ClipGeometry::RoundedRect(RoundedRect::from_rect_radius(
            rect(-1.0, -1.0, 1.0, 1.0),
            sc(0.25),
        )),
        stroke: Stroke::new(sc(3.0)),
    };
    let nan_transform = Clip::Stroke {
        transform: affine([1.0, 0.0, 0.0, f64::NAN, 0.0, 0.0]),
        shape: ClipGeometry::Rect(rect(0.0, 0.0, 1.0, 1.0)),
        stroke: Stroke::new(sc(3.0)),
    };
    let nan_shape = Clip::Stroke {
        transform: Affine::identity(),
        shape: ClipGeometry::Rect(rect(0.0, 0.0, f64::NAN, 1.0)),
        stroke: Stroke::new(sc(3.0)),
    };
    let nan_stroke = Clip::Stroke {
        transform: Affine::identity(),
        shape: ClipGeometry::Rect(rect(0.0, 0.0, 1.0, 1.0)),
        stroke: Stroke::new(sc(2.0)).with_dashes(sc(0.0), vec![sc(1.0), sc(f64::NAN)]),
    };
    let infinite_stroke = Clip::Stroke {
        transform: Affine::identity(),
        shape: ClipGeometry::Rect(rect(0.0, 0.0, 1.0, 1.0)),
        stroke: Stroke::new(sc(f64::INFINITY)),
    };

    assert!(!finite.is_nan());
    assert!(nan_transform.is_nan());
    assert!(nan_shape.is_nan());
    assert!(nan_stroke.is_nan());
    assert!(!infinite_stroke.is_nan());
}

#[test]
fn clip_geometry_bounds() {
    let r = ClipGeometry::Rect(rect(1.0, 2.0, 4.0, 8.0));
    assert_eq!(r.bounds(), Some(rect(1.0, 2.0, 4.0, 8.0)));

    let rounded = ClipGeometry::RoundedRect(RoundedRect::from_rect_radius(
        rect(-1.0, -2.0, 3.0, 4.0),
        sc(0.5),
    ));
    assert_eq!(rounded.bounds(), Some(rect(-1.0, -2.0, 3.0, 4.0)));
}

#[test]
fn clip_bounds_for_fill_and_stroke() {
    let fill = Clip::Fill {
        transform: translate(10.0, -4.0),
        shape: ClipGeometry::Rect(rect(0.0, 0.0, 2.0, 3.0)),
        fill_rule: Fill::NonZero,
    };
    assert_eq!(fill.bounds(), Some(rect(10.0, -4.0, 12.0, -1.0)));

    let stroke = Clip::Stroke {
        transform: Affine::identity(),
        shape: ClipGeometry::Rect(rect(0.0, 0.0, 2.0, 3.0)),
        stroke: Stroke::new(sc(2.0)).with_miter_limit(sc(4.0)),
    };
    assert_eq!(stroke.bounds(), Some(rect(-4.0, -4.0, 6.0, 7.0)));
}

#[test]
fn clip_bounds_returns_none_for_non_finite_inputs() {
    let non_finite_fill = Clip::Fill {
        transform: affine([1.0, 0.0, 0.0, f64::NAN, 0.0, 0.0]),
        shape: ClipGeometry::Rect(rect(0.0, 0.0, 2.0, 3.0)),
        fill_rule: Fill::NonZero,
    };
    assert_eq!(non_finite_fill.bounds(), None);

    let non_finite_stroke = Clip::Stroke {
        transform: Affine::identity(),
        shape: ClipGeometry::Rect(rect(0.0, 0.0, 2.0, 3.0)),
        stroke: Stroke::new(sc(1.0)).with_dashes(sc(0.0), vec![sc(1.0), sc(f64::NAN)]),
    };
    assert_eq!(non_finite_stroke.bounds(), None);
}

#[test]
fn fill_bounds_round_trip_through_translation() {
    let clip = Clip::Fill {
        transform: translate(5.0, -2.0),
        shape: ClipGeometry::Rect(rect(0.0, 0.0, 2.0, 3.0)),
        fill_rule: Fill::NonZero,
    };
    assert_eq!(clip.bounds(), Some(rect(5.0, -2.0, 7.0, 1.0)));
}

#[test]
fn stroke_bounds_apply_the_conservative_outset() {
    let clip = Clip::Stroke {
        transform: Affine::identity(),
        shape: ClipGeometry::Rect(rect(0.0, 0.0, 2.0, 3.0)),
        stroke: Stroke::new(sc(2.0)).with_miter_limit(sc(4.0)),
    };
    // outset = 0.5 * 2 * 4 = 4 on all sides of the 0..2 x 0..3 rectangle
    assert_eq!(clip.bounds(), Some(rect(-4.0, -4.0, 6.0, 7.0)));
}

#[test]
fn nan_transform_gives_no_bounds() {
    let clip = Clip::Fill {
        transform: affine([f64::NAN, 0.0, 0.0, 1.0, 0.0, 0.0]),
        shape: ClipGeometry::Rect(rect(0.0, 0.0, 2.0, 3.0)),
        fill_rule: Fill::NonZero,
    };
    assert_eq!(clip.bounds(), None);
}

#[test]
fn bounds_are_idempotent_on_cloned_geometry() {
    let mut path = BezPath::new();
    path.move_to(pt(0.0, 0.0));
    path.line_to(pt(4.0, 1.0));
    path.line_to(pt(2.0, -3.0));
    path.close_path();
    let shape = ClipGeometry::Path(path);
    let copy = shape.clone();
    assert_eq!(shape.bounds(), shape.bounds());
    assert_eq!(shape.bounds(), copy.bounds());
    assert_eq!(shape.bounds(), Some(rect(0.0, -3.0, 4.0, 1.0)));
}

#[test]
fn zero_radius_rounded_rect_has_plain_bounds() {
    let rounded = ClipGeometry::RoundedRect(RoundedRect::from_rect_radius(
        rect(1.0, 2.0, 5.0, 9.0),
        sc(0.0),
    ));
    assert_eq!(rounded.bounds(), Some(rect(1.0, 2.0, 5.0, 9.0)));
}

#[test]
fn rect_to_path_outlines_the_corners() {
    let g = ClipGeometry::Rect(rect(1.0, 2.0, 4.0, 8.0));
    let p = g.to_path(sc(0.1));
    let els = p.elements().to_vec();
    assert_eq!(
        els,
        vec![
            PathEl::MoveTo(pt(1.0, 2.0)),
            PathEl::LineTo(pt(4.0, 2.0)),
            PathEl::LineTo(pt(4.0, 8.0)),
            PathEl::LineTo(pt(1.0, 8.0)),
            PathEl::ClosePath,
        ]
    );
}

#[test]
fn rounded_rect_to_path_uses_one_cubic_per_corner() {
    let g = ClipGeometry::RoundedRect(RoundedRect::from_rect_radius(
        rect(0.0, 0.0, 4.0, 4.0),
        sc(1.0),
    ));
    let p = g.to_path(sc(0.1));
    let els = p.elements().to_vec();
    assert_eq!(els.len(), 10);
    // the outline starts after the top-left corner and walks clockwise
    assert_eq!(els[0], PathEl::MoveTo(pt(1.0, 0.0)));
    assert_eq!(els[1], PathEl::LineTo(pt(3.0, 0.0)));
    // the first quarter arc: control points at the ratio 36195 / 65536
    let k = 36195i64;
    assert_eq!(
        els[2],
        PathEl::CurveTo(
            Point::new(Scalar::from_fixed(3 * 65536 + k), sc(0.0)),
            Point::new(sc(4.0), Scalar::from_fixed(65536 - k)),
            Point::new(sc(4.0), sc(1.0)),
        )
    );
    assert_eq!(els[9], PathEl::ClosePath);
}

#[test]
fn path_to_path_is_identity() {
    let mut path = BezPath::new();
    path.move_to(pt(0.0, 0.0));
    path.quad_to(pt(1.0, 1.0), pt(2.0, 0.0));
    path.curve_to(pt(3.0, -1.0), pt(4.0, 1.0), pt(5.0, 0.0));
    path.close_path();
    let expected = path.elements().to_vec();
    let g = ClipGeometry::Path(path);
    let p = g.to_path(sc(0.1));
    assert_eq!(p.elements().to_vec(), expected);
}

#[test]
fn quad_bounds_are_tight_at_the_extremum() {
    let mut path = BezPath::new();
    path.move_to(pt(0.0, 0.0));
    path.quad_to(pt(1.0, 2.0), pt(2.0, 0.0));
    let g = ClipGeometry::Path(path);
    // the curve peaks at height 1, halfway to the control point (1, 2)
    assert_eq!(g.bounds(), Some(rect(0.0, 0.0, 2.0, 1.0)));
}

#[test]
fn cubic_bounds_are_tight_at_the_extremum() {
    let mut path = BezPath::new();
    path.move_to(pt(0.0, 0.0));
    path.curve_to(pt(1.0, 2.0), pt(2.0, 2.0), pt(3.0, 0.0));
    let g = ClipGeometry::Path(path);
    // the curve peaks at height 1.5, three quarters of the way to the
    // control points' height
    assert_eq!(g.bounds(), Some(rect(0.0, 0.0, 3.0, 1.5)));
}

#[test]
fn descending_quad_bounds_are_tight_below() {
    let mut path = BezPath::new();
    path.move_to(pt(1.0, 1.0));
    path.quad_to(pt(2.0, -3.0), pt(3.0, 1.0));
    let g = ClipGeometry::Path(path);
    // the dip bottoms out at y = -1, halfway to the control point
    assert_eq!(g.bounds(), Some(rect(1.0, -1.0, 3.0, 1.0)));
}

#[test]
fn close_path_contributes_the_closing_segment() {
    let mut path = BezPath::new();
    path.move_to(pt(-2.0, 5.0));
    path.line_to(pt(1.0, 6.0));
    path.close_path();
    let g = ClipGeometry::Path(path);
    assert_eq!(g.bounds(), Some(rect(-2.0, 5.0, 1.0, 6.0)));
}

#[test]
fn empty_path_has_zero_bounds() {
    let g = ClipGeometry::Path(BezPath::new());
    assert_eq!(g.bounds(), Some(rect(0.0, 0.0, 0.0, 0.0)));
}

#[test]
fn rounded_rect_normalizes_and_clamps() {
    let rr = RoundedRect::from_rect_radius(rect(3.0, 4.0, -1.0, -2.0), sc(100.0));
    assert_eq!(rr.rect(), rect(-1.0, -2.0, 3.0, 4.0));
    // radii are clamped to half the shorter side: min(4, 6) / 2 = 2
    assert_eq!(rr.radii(), RoundedRectRadii::from_single_radius(sc(2.0)));
}

#[test]
fn scalar_arithmetic_follows_the_extended_reals() {
    assert_eq!(sc(2.0).add(sc(3.5)), sc(5.5));
    assert_eq!(sc(2.0).mul(sc(-3.5)), sc(-7.0));
    assert_eq!(sc(f64::INFINITY).add(sc(1.0)), sc(f64::INFINITY));
    assert!(sc(f64::INFINITY).add(sc(f64::NEG_INFINITY)).is_nan());
    assert!(sc(f64::INFINITY).mul(sc(0.0)).is_nan());
    assert_eq!(sc(-2.0).abs(), sc(2.0));
    assert_eq!(sc(-2.0).min(sc(1.0)), sc(-2.0));
    assert_eq!(sc(f64::NAN).max(sc(1.0)), sc(1.0));
    assert!(!sc(f64::NAN).same_value(sc(f64::NAN)));
    assert!(sc(7.0).same_value(sc(7.0)));
}
