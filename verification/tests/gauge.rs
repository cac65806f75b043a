use nzxt_ctl::config::TempSource;
use nzxt_ctl::gauge::{
    gauge_fraction, gauge_range, heat_color, layout_text, lit_dots, source_label, value_label,
};

#[test]
fn heat_color_hits_the_stops() {
    assert_eq!(heat_color(0, 1), [60, 140, 255, 255]);
    assert_eq!(heat_color(1, 2), [255, 170, 40, 255]);
    assert_eq!(heat_color(1, 1), [255, 60, 50, 255]);
}

#[test]
fn heat_color_blends_between_stops() {
    assert_eq!(heat_color(1, 4), [158, 155, 148, 255]);
    assert_eq!(heat_color(3, 4), [255, 115, 45, 255]);
}

#[test]
fn ranges_and_labels() {
    assert_eq!(gauge_range(TempSource::Liquid), (20_000, 60_000));
    assert_eq!(gauge_range(TempSource::Cpu), (30_000, 95_000));
    assert_eq!(gauge_range(TempSource::Gpu), (30_000, 90_000));
    assert_eq!(source_label(TempSource::Liquid), "LIQUID");
    assert_eq!(source_label(TempSource::Cpu), "CPU");
    assert_eq!(source_label(TempSource::Gpu), "GPU");
}

#[test]
fn fraction_is_clamped_to_the_range() {
    assert_eq!(gauge_fraction(TempSource::Liquid, 10_000_000), (0, 40_000_000));
    assert_eq!(gauge_fraction(TempSource::Liquid, 30_000_000), (10_000_000, 40_000_000));
    assert_eq!(gauge_fraction(TempSource::Liquid, 30_000_250), (10_000_250, 40_000_000));
    assert_eq!(gauge_fraction(TempSource::Liquid, 70_000_000), (40_000_000, 40_000_000));
}

#[test]
fn ring_lights_in_proportion() {
    assert_eq!(lit_dots(None), 0);
    assert_eq!(lit_dots(Some((0, 40_000))), 0);
    assert_eq!(lit_dots(Some((10_000, 40_000))), 12);
    assert_eq!(lit_dots(Some((40_000, 40_000))), 48);
    assert_eq!(lit_dots(Some((1, 96))), 1);
}

#[test]
fn value_label_prints_whole_degrees() {
    assert_eq!(value_label(None), "--");
    assert_eq!(value_label(Some(41_499_999)), "41");
    assert_eq!(value_label(Some(41_500_000)), "42");
    assert_eq!(value_label(Some(42_500_000)), "42");
    assert_eq!(value_label(Some(42_500_001)), "43");
    assert_eq!(value_label(Some(-3_200_000)), "-3");
}

#[test]
fn texts_are_centred_around_the_value() {
    let l = layout_text(640, 640, (200, 180), (120, 40), 60);
    assert_eq!((l.value_x, l.value_y), (220, 214));
    assert_eq!((l.caption_x, l.caption_y), (260, 158));
    assert_eq!((l.unit_x, l.unit_y), (290, 404));
    let l = layout_text(64, 64, (81, 20), (10, 5), 7);
    assert_eq!(l.value_x, -8);
}
