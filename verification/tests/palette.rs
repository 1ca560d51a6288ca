use delay_vst::palette::{
    auto_gain_led_color, creative_caption_color, filter_button_style, filter_icon_color, mode_switch_handle_offset,
    mode_switch_track_color, studio_caption_color, Rgba,
};

fn rgb(r: u8, g: u8, b: u8) -> Rgba {
    Rgba { r, g, b, a: 255 }
}

#[test]
fn mode_captions() {
    assert_eq!(studio_caption_color(true), rgb(46, 53, 64));
    assert_eq!(creative_caption_color(true), rgb(138, 148, 166));
    assert_eq!(studio_caption_color(false), rgb(138, 148, 166));
    assert_eq!(creative_caption_color(false), rgb(46, 53, 64));
}

#[test]
fn mode_captions_are_complementary_on_values() {
    for m in [true, false] {
        assert_eq!(studio_caption_color(m), creative_caption_color(!m));
        assert_ne!(studio_caption_color(m), creative_caption_color(m));
    }
}

#[test]
fn mode_switch_track_and_handle() {
    assert_eq!(mode_switch_track_color(true), rgb(142, 153, 252));
    assert_eq!(mode_switch_track_color(false), rgb(203, 213, 224));
    assert_eq!(mode_switch_handle_offset(true), 2);
    assert_eq!(mode_switch_handle_offset(false), 17);
}

#[test]
fn auto_gain_led() {
    assert_eq!(auto_gain_led_color(true), rgb(89, 243, 140));
    assert_eq!(auto_gain_led_color(false), rgb(160, 174, 192));
}

#[test]
fn filter_button_active_and_inactive() {
    let on = filter_button_style(true);
    assert_eq!(on.background, rgb(235, 253, 250));
    assert_eq!(on.border, Some(rgb(44, 229, 196)));
    assert_eq!(on.label, rgb(44, 229, 196));
    let off = filter_button_style(false);
    assert_eq!(off.background, Rgba { r: 0, g: 0, b: 0, a: 0 });
    assert_eq!(off.border, None);
    assert_eq!(off.label, rgb(113, 128, 150));
}

#[test]
fn filter_icon_matches_caption() {
    for a in [true, false] {
        assert_eq!(filter_icon_color(a), filter_button_style(a).label);
        assert_eq!(filter_button_style(a).border.is_some(), a);
    }
}

#[test]
fn rgba_constructors() {
    assert_eq!(Rgba::opaque(1, 2, 3), Rgba { r: 1, g: 2, b: 3, a: 255 });
    assert_eq!(Rgba::with_alpha(1, 2, 3, 4), Rgba { r: 1, g: 2, b: 3, a: 4 });
}
