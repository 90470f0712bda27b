use std::sync::Arc;

use peniko::{Affine, BezPath, Blob, BlendMode, Clip, ClipGeometry, Compose, Extend, Fill, Font,
    ImageAlphaType, ImageData, ImageFormat, ImageQuality, InterpolationAlphaSpace, Mix, Point,
    Rect, Scalar, Stroke, Style, StyleRef};

#[test]
fn blend_mode_construction_and_defaults() {
    let m = BlendMode::new(Mix::Multiply, Compose::SrcIn);
    assert_eq!(m.mix, Mix::Multiply);
    assert_eq!(m.compose, Compose::SrcIn);

    let d = BlendMode::default();
    assert_eq!(d, BlendMode::new(Mix::Normal, Compose::SrcOver));

    assert_eq!(BlendMode::from(Mix::Screen), BlendMode::new(Mix::Screen, Compose::SrcOver));
    assert_eq!(BlendMode::from(Compose::Plus), BlendMode::new(Mix::Normal, Compose::Plus));
}

#[test]
fn blob_keeps_data_and_identifier() {
    let blob = Blob::new(Arc::new(vec![1u8, 2, 3]));
    assert_eq!(blob.len(), 3);
    assert!(!blob.is_empty());
    assert_eq!(blob.data(), &[1, 2, 3]);

    let id = blob.id();
    let copy = blob.clone();
    assert_eq!(copy.id(), id);
    assert_eq!(copy.data(), &[1, 2, 3]);
    assert!(blob == copy);
    assert!(blob.strong_count() >= 2);

    let (data, raw_id) = blob.into_raw_parts();
    let rebuilt = Blob::from_raw_parts(data, raw_id);
    assert_eq!(rebuilt.id(), id);
    assert_eq!(rebuilt.data(), &[1, 2, 3]);
}

#[test]
fn fresh_blobs_have_distinct_identifiers() {
    let a = Blob::new(Arc::new(vec![0u8]));
    let b = Blob::new(Arc::new(vec![0u8]));
    assert_ne!(a.id(), b.id());
    assert!(a != b);
}

#[test]
fn empty_blob() {
    let blob: Blob<u8> = Blob::new(Arc::new(Vec::new()));
    assert_eq!(blob.len(), 0);
    assert!(blob.is_empty());
}

#[test]
fn font_carries_blob_and_index() {
    let data = Blob::new(Arc::new(vec![0u8, 1, 2]));
    let id = data.id();
    let font = Font::new(data, 7);
    assert_eq!(font.index, 7);
    assert_eq!(font.data.id(), id);
    assert_eq!(font.data.data(), &[0, 1, 2]);
}

#[test]
fn image_size_in_bytes() {
    assert_eq!(ImageFormat::Rgba8.size_in_bytes(16, 16), Some(1024));
    assert_eq!(ImageFormat::Bgra8.size_in_bytes(3, 5), Some(60));
    assert_eq!(ImageFormat::Rgba8.size_in_bytes(0, 100), Some(0));
    assert_eq!(ImageFormat::Rgba8.size_in_bytes(u32::MAX, u32::MAX), None);
}

#[test]
fn image_data_holds_its_fields() {
    let data = Blob::new(Arc::new(vec![0u8; 16]));
    let image = ImageData {
        data,
        format: ImageFormat::Rgba8,
        alpha_type: ImageAlphaType::Alpha,
        width: 2,
        height: 2,
    };
    assert_eq!(image.format, ImageFormat::Rgba8);
    assert_eq!(image.alpha_type, ImageAlphaType::Alpha);
    assert_eq!(image.width, 2);
    assert_eq!(image.height, 2);
    assert_eq!(image.data.len(), 16);
    assert_eq!(ImageQuality::default(), ImageQuality::Medium);
}

#[test]
fn stroke_builders_set_their_fields() {
    let one = Scalar::from_int(1);
    let s = Stroke::new(Scalar::from_int(2))
        .with_miter_limit(Scalar::from_int(7))
        .with_dashes(one, vec![one, Scalar::from_int(3)]);
    assert_eq!(s.width, Scalar::from_int(2));
    assert_eq!(s.miter_limit, Scalar::from_int(7));
    assert_eq!(s.dash_offset, one);
    assert_eq!(s.dash_pattern, vec![one, Scalar::from_int(3)]);

    let d = Stroke::default();
    assert_eq!(d.width, Scalar::from_int(1));
    assert_eq!(d.miter_limit, Scalar::from_int(4));
    assert!(d.dash_pattern.is_empty());
    assert!(d.scale);
}

#[test]
fn style_ref_to_owned_copies_the_stroke() {
    let stroke = Stroke::new(Scalar::from_int(2))
        .with_dashes(Scalar::from_int(0), vec![Scalar::from_int(1)]);
    let by_ref = StyleRef::from(&stroke);
    match by_ref.to_owned() {
        Style::Stroke(owned) => assert!(owned == stroke),
        Style::Fill(_) => panic!("expected a stroke style"),
    }
    let fill_ref = StyleRef::from(Fill::EvenOdd);
    match fill_ref.to_owned() {
        Style::Fill(f) => assert_eq!(f, Fill::EvenOdd),
        Style::Stroke(_) => panic!("expected a fill style"),
    }
}

#[test]
fn clip_equality_is_structural() {
    let mut p1 = BezPath::new();
    p1.move_to(Point::new(Scalar::from_int(0), Scalar::from_int(0)));
    p1.line_to(Point::new(Scalar::from_int(1), Scalar::from_int(2)));
    let p2 = p1.clone();
    assert!(p1 == p2);
    let g1 = ClipGeometry::Path(p1);
    let g2 = ClipGeometry::Path(p2);
    assert!(g1 == g2);
    let r = Rect::new(
        Scalar::from_int(0),
        Scalar::from_int(0),
        Scalar::from_int(1),
        Scalar::from_int(1),
    );
    assert!(ClipGeometry::Rect(r) != g1);
    let c1 = Clip::Fill { transform: Affine::identity(), shape: g1, fill_rule: Fill::NonZero };
    let c2 = Clip::Fill { transform: Affine::identity(), shape: g2, fill_rule: Fill::NonZero };
    assert!(c1 == c2);
    let c3 = Clip::Stroke {
        transform: Affine::identity(),
        shape: ClipGeometry::Rect(r),
        stroke: Stroke::new(Scalar::from_int(1)),
    };
    assert!(c1 != c3);
}

#[test]
fn style_wraps_fill_and_stroke() {
    assert_eq!(Fill::default(), Fill::NonZero);
    let fill_style = Style::from(Fill::EvenOdd);
    assert!(matches!(fill_style, Style::Fill(Fill::EvenOdd)));
    let stroke_style = Style::from(Stroke::new(Scalar::from_int(2)));
    assert!(matches!(stroke_style, Style::Stroke(_)));
    assert_eq!(Extend::default(), Extend::Pad);
    assert_eq!(
        InterpolationAlphaSpace::default(),
        InterpolationAlphaSpace::Premultiplied
    );
}
