use rnoteformat::shaperconfig::{ShaperBrushType, ShaperConfigError, ShaperStyle};

#[test]
fn shaper_style_default_is_smooth() {
    assert_eq!(ShaperStyle::default(), ShaperStyle::Smooth);
}

#[test]
fn shaper_brush_type_default_is_solid() {
    assert_eq!(ShaperBrushType::default(), ShaperBrushType::Solid);
}

#[test]
fn shaper_style_try_from_decodes_each_variant() {
    assert_eq!(ShaperStyle::try_from(0), Ok(ShaperStyle::Smooth));
    assert_eq!(ShaperStyle::try_from(1), Ok(ShaperStyle::Rough));
    assert_eq!(
        ShaperStyle::try_from(2),
        Err(ShaperConfigError::UnknownVariant)
    );
    assert_eq!(
        ShaperStyle::try_from(u32::MAX),
        Err(ShaperConfigError::UnknownVariant)
    );
}

#[test]
fn shaper_brush_type_try_from_decodes_each_variant() {
    assert_eq!(ShaperBrushType::try_from(0), Ok(ShaperBrushType::Solid));
    assert_eq!(
        ShaperBrushType::try_from(1),
        Ok(ShaperBrushType::Highlighter)
    );
    assert_eq!(
        ShaperBrushType::try_from(6),
        Err(ShaperConfigError::UnknownVariant)
    );
}

#[test]
fn shaper_tags_round_trip_through_their_numeric_form() {
    for style in [ShaperStyle::Smooth, ShaperStyle::Rough] {
        assert_eq!(ShaperStyle::try_from(style.to_u32()), Ok(style));
    }
    for brush in [ShaperBrushType::Solid, ShaperBrushType::Highlighter] {
        assert_eq!(ShaperBrushType::try_from(brush.to_u32()), Ok(brush));
    }
}
