use peniko::{Compose, Extend, Fill, ImageAlphaType, ImageFormat, ImageQuality, Mix};

#[test]
fn checked_bit_pattern() {
    assert_eq!(Some(Compose::Copy), Compose::from_integer(1));
    assert!(!Compose::is_valid_bit_pattern(&200));

    assert_eq!(Some(Extend::Repeat), Extend::from_integer(1));
    assert!(!Extend::is_valid_bit_pattern(&200));

    assert_eq!(Some(Fill::EvenOdd), Fill::from_integer(1));
    assert!(!Fill::is_valid_bit_pattern(&200));

    assert_eq!(Some(ImageAlphaType::Alpha), ImageAlphaType::from_integer(0));
    assert_eq!(
        Some(ImageAlphaType::AlphaPremultiplied),
        ImageAlphaType::from_integer(1)
    );
    assert!(!ImageAlphaType::is_valid_bit_pattern(&200));

    assert_eq!(Some(ImageFormat::Rgba8), ImageFormat::from_integer(0));
    assert_eq!(Some(ImageFormat::Bgra8), ImageFormat::from_integer(1));
    assert!(!ImageFormat::is_valid_bit_pattern(&200));

    assert_eq!(Some(ImageQuality::Medium), ImageQuality::from_integer(1));
    assert!(!ImageQuality::is_valid_bit_pattern(&200));

    assert_eq!(Some(Mix::Multiply), Mix::from_integer(1));
    assert!(!Mix::is_valid_bit_pattern(&200));
}

#[test]
fn contiguous() {
    let compose1 = Compose::PlusLighter;
    let compose2 = Compose::from_integer(compose1.into_integer());
    assert_eq!(Some(compose1), compose2);

    assert_eq!(None, Compose::from_integer(255));

    let extend1 = Extend::Repeat;
    let extend2 = Extend::from_integer(extend1.into_integer());
    assert_eq!(Some(extend1), extend2);

    assert_eq!(None, Extend::from_integer(255));

    let fill1 = Fill::EvenOdd;
    let fill2 = Fill::from_integer(fill1.into_integer());
    assert_eq!(Some(fill1), fill2);

    assert_eq!(None, Fill::from_integer(255));

    let image_alpha_type_1 = ImageAlphaType::Alpha;
    let image_alpha_type_2 = ImageAlphaType::from_integer(image_alpha_type_1.into_integer());
    assert_eq!(Some(image_alpha_type_1), image_alpha_type_2);

    assert_eq!(None, ImageAlphaType::from_integer(255));

    let image_format_1 = ImageFormat::Rgba8;
    let image_format_2 = ImageFormat::from_integer(image_format_1.into_integer());
    assert_eq!(Some(image_format_1), image_format_2);

    assert_eq!(None, ImageFormat::from_integer(255));

    let image_quality_1 = ImageQuality::Low;
    let image_quality_2 = ImageQuality::from_integer(image_quality_1.into_integer());
    assert_eq!(Some(image_quality_1), image_quality_2);

    assert_eq!(None, ImageQuality::from_integer(255));

    let mix_1 = Mix::Multiply;
    let mix_2 = Mix::from_integer(mix_1.into_integer());
    assert_eq!(Some(mix_1), mix_2);

    assert_eq!(None, Mix::from_integer(255));
}

#[test]
fn zeroable() {
    let compose = Compose::zeroed();
    assert_eq!(compose, Compose::Clear);

    let extend = Extend::zeroed();
    assert_eq!(extend, Extend::Pad);

    let fill = Fill::zeroed();
    assert_eq!(fill, Fill::NonZero);

    let image_alpha_type = ImageAlphaType::zeroed();
    assert_eq!(image_alpha_type, ImageAlphaType::Alpha);

    let image_format = ImageFormat::zeroed();
    assert_eq!(image_format, ImageFormat::Rgba8);

    let image_quality = ImageQuality::zeroed();
    assert_eq!(image_quality, ImageQuality::Low);

    let mix = Mix::zeroed();
    assert_eq!(mix, Mix::Normal);
}

#[test]
fn every_mix_round_trips_and_the_range_is_contiguous() {
    for v in 0u8..=15 {
        let m = Mix::from_integer(v).unwrap();
        assert_eq!(m.into_integer(), v);
    }
    assert_eq!(Mix::from_integer(16), None);
    for v in 0u8..=13 {
        let c = Compose::from_integer(v).unwrap();
        assert_eq!(c.into_integer(), v);
    }
    assert_eq!(Compose::from_integer(14), None);
}
