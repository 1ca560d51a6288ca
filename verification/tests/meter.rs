use delay_vst::meter::{meter_segments, segment_color, segment_rgba, SegmentColor, METER_SEGMENTS};
use delay_vst::palette::Rgba;

#[test]
fn segment_bands() {
    assert_eq!(segment_color(0, 24), SegmentColor::Green);
    assert_eq!(segment_color(15, 24), SegmentColor::Green);
    assert_eq!(segment_color(16, 24), SegmentColor::Cyan);
    assert_eq!(segment_color(18, 24), SegmentColor::Cyan);
    assert_eq!(segment_color(19, 24), SegmentColor::Orange);
    assert_eq!(segment_color(21, 24), SegmentColor::Orange);
    assert_eq!(segment_color(22, 24), SegmentColor::Red);
    assert_eq!(segment_color(23, 24), SegmentColor::Red);
}

#[test]
fn segments_above_limit_are_unlit() {
    assert_eq!(segment_color(0, 0), SegmentColor::Unlit);
    assert_eq!(segment_color(12, 12), SegmentColor::Unlit);
    assert_eq!(segment_color(11, 12), SegmentColor::Green);
}

#[test]
fn meter_has_twenty_four_segments() {
    assert_eq!(METER_SEGMENTS, 24);
    for lit in [0usize, 1, 13, 24, 30, usize::MAX] {
        assert_eq!(meter_segments(lit).len(), 24);
    }
}

#[test]
fn meter_lights_a_prefix_on_values() {
    for lit in 0..40usize {
        let v = meter_segments(lit);
        let count = v.iter().filter(|c| **c != SegmentColor::Unlit).count();
        assert_eq!(count, lit.min(24));
        for (i, c) in v.iter().enumerate() {
            assert_eq!(*c != SegmentColor::Unlit, i < lit);
        }
    }
}

#[test]
fn meter_at_eighteen() {
    let v = meter_segments(18);
    assert_eq!(v[15], SegmentColor::Green);
    assert_eq!(v[17], SegmentColor::Cyan);
    assert_eq!(v[18], SegmentColor::Unlit);
    assert_eq!(v[23], SegmentColor::Unlit);
}

#[test]
fn segment_paint() {
    assert_eq!(segment_rgba(SegmentColor::Green), Rgba { r: 82, g: 236, b: 135, a: 255 });
    assert_eq!(segment_rgba(SegmentColor::Cyan), Rgba { r: 76, g: 223, b: 242, a: 255 });
    assert_eq!(segment_rgba(SegmentColor::Orange), Rgba { r: 252, g: 163, b: 61, a: 255 });
    assert_eq!(segment_rgba(SegmentColor::Red), Rgba { r: 255, g: 94, b: 94, a: 255 });
    assert_eq!(segment_rgba(SegmentColor::Unlit), Rgba { r: 203, g: 213, b: 220, a: 255 });
}
