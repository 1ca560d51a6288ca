//! Colours of the panel and the decisions that pick one colour or another
//! from the state of a control.
use vstd::prelude::*;

verus! {

/// An sRGB colour with straight (not premultiplied) alpha.
#[derive(Clone, Copy, Debug, PartialEq, Eq, Structural)]
pub struct Rgba {
    pub r: u8,
    pub g: u8,
    pub b: u8,
    pub a: u8,
}

/// The fully opaque colour with the given channels.
pub open spec fn rgb(r: u8, g: u8, b: u8) -> Rgba {
    Rgba { r, g, b, a: 255 }
}

impl Rgba {
    /// The fully opaque colour with the given channels.
    pub fn opaque(r: u8, g: u8, b: u8) -> (c: Rgba)
        ensures
            c == rgb(r, g, b),
    {
        Rgba { r, g, b, a: 255 }
    }

    /// The colour with the given channels and straight alpha.
    pub fn with_alpha(r: u8, g: u8, b: u8, a: u8) -> (c: Rgba)
        ensures
            c == (Rgba { r, g, b, a }),
    {
        Rgba { r, g, b, a }
    }
}

/// Fully transparent black.
pub open spec fn transparent() -> Rgba {
    Rgba { r: 0, g: 0, b: 0, a: 0 }
}

/// The teal accent of lit icons, active labels and the tempo arc.
pub open spec fn accent() -> Rgba {
    rgb(44, 229, 196)
}

/// Grey-blue of inactive labels and icons.
pub open spec fn muted() -> Rgba {
    rgb(113, 128, 150)
}

/// Text colour of the selected side of the mode switch.
pub open spec fn mode_selected_text() -> Rgba {
    rgb(46, 53, 64)
}

/// Text colour of the side of the mode switch that is not selected.
pub open spec fn mode_unselected_text() -> Rgba {
    rgb(138, 148, 166)
}

/// Colour of the "STUDIO" caption of the mode switch.
pub open spec fn studio_caption_spec(studio_mode: bool) -> Rgba {
    if studio_mode {
        mode_selected_text()
    } else {
        mode_unselected_text()
    }
}

/// Colour of the "CREATIVE" caption of the mode switch.
pub open spec fn creative_caption_spec(studio_mode: bool) -> Rgba {
    if !studio_mode {
        mode_selected_text()
    } else {
        mode_unselected_text()
    }
}

/// Colour of the "STUDIO" caption: dark when studio mode is on, dim otherwise.
pub fn studio_caption_color(studio_mode: bool) -> (c: Rgba)
    ensures
        c == studio_caption_spec(studio_mode),
{
    if studio_mode {
        Rgba::opaque(46, 53, 64)
    } else {
        Rgba::opaque(138, 148, 166)
    }
}

/// Colour of the "CREATIVE" caption: dark when studio mode is off, dim otherwise.
pub fn creative_caption_color(studio_mode: bool) -> (c: Rgba)
    ensures
        c == creative_caption_spec(studio_mode),
{
    if !studio_mode {
        Rgba::opaque(46, 53, 64)
    } else {
        Rgba::opaque(138, 148, 166)
    }
}

/// Track colour of the mode switch: violet in studio mode, light grey otherwise.
pub fn mode_switch_track_color(studio_mode: bool) -> (c: Rgba)
    ensures
        c == (if studio_mode { rgb(142, 153, 252) } else { rgb(203, 213, 224) }),
{
    if studio_mode {
        Rgba::opaque(142, 153, 252)
    } else {
        Rgba::opaque(203, 213, 224)
    }
}

/// Horizontal offset, in points from the left edge of the switch track, of
/// the switch handle: to the left in studio mode, to the right otherwise.
pub fn mode_switch_handle_offset(studio_mode: bool) -> (x: u32)
    ensures
        x == (if studio_mode { 2u32 } else { 17u32 }),
{
    if studio_mode {
        2
    } else {
        17
    }
}

/// Colour of the auto-gain indicator: green when on, grey when off.
pub fn auto_gain_led_color(auto_gain: bool) -> (c: Rgba)
    ensures
        c == (if auto_gain { rgb(89, 243, 140) } else { rgb(160, 174, 192) }),
{
    if auto_gain {
        Rgba::opaque(89, 243, 140)
    } else {
        Rgba::opaque(160, 174, 192)
    }
}

/// How a filter button (brightness, color, sparkle) is drawn.
#[derive(Clone, Copy, Debug, PartialEq, Eq, Structural)]
pub struct FilterButtonStyle {
    /// Fill of the button's rounded rectangle.
    pub background: Rgba,
    /// Colour of the button's outline, if it has one.
    pub border: Option<Rgba>,
    /// Colour of the caption under the icon.
    pub label: Rgba,
}

/// The style of a filter button, lit or not.
pub open spec fn filter_button_style_spec(active: bool) -> FilterButtonStyle {
    if active {
        FilterButtonStyle { background: rgb(235, 253, 250), border: Some(accent()), label: accent() }
    } else {
        FilterButtonStyle { background: transparent(), border: None, label: muted() }
    }
}

/// Style of a filter button: a pale teal fill, a teal outline and a teal
/// caption when the filter is on; no fill, no outline and a grey caption
/// when it is off.
pub fn filter_button_style(active: bool) -> (s: FilterButtonStyle)
    ensures
        s == filter_button_style_spec(active),
{
    if active {
        FilterButtonStyle {
            background: Rgba::opaque(235, 253, 250),
            border: Some(Rgba::opaque(44, 229, 196)),
            label: Rgba::opaque(44, 229, 196),
        }
    } else {
        FilterButtonStyle {
            background: Rgba::with_alpha(0, 0, 0, 0),
            border: None,
            label: Rgba::opaque(113, 128, 150),
        }
    }
}

/// Colour of the icon drawn inside a filter button: the accent when the
/// filter is on, grey otherwise.
pub fn filter_icon_color(active: bool) -> (c: Rgba)
    ensures
        c == (if active { accent() } else { muted() }),
{
    if active {
        Rgba::opaque(44, 229, 196)
    } else {
        Rgba::opaque(113, 128, 150)
    }
}

/// The two captions of the mode switch always show opposite states: the
/// caption of one side in a mode is the caption of the other side in the
/// other mode, and exactly one of them is drawn as selected.
pub proof fn mode_captions_are_complementary(studio_mode: bool)
    ensures
        studio_caption_spec(studio_mode) == creative_caption_spec(!studio_mode),
        (studio_caption_spec(studio_mode) == mode_selected_text()) != (creative_caption_spec(
            studio_mode,
        ) == mode_selected_text()),
{
}

/// A filter button has an outline exactly when it is on, and its icon is
/// always drawn in the colour of its caption.
pub proof fn filter_button_outline_iff_active(active: bool)
    ensures
        filter_button_style_spec(active).border is Some <==> active,
        filter_button_style_spec(active).label == (if active { accent() } else { muted() }),
{
}

} // verus!

verus! {

/// In studio mode the STUDIO caption is dark (46, 53, 64) and CREATIVE dim
/// (138, 148, 166); in creative mode the other way round.
pub proof fn mode_caption_values(studio_mode: bool)
    ensures
        studio_caption_spec(studio_mode) == (if studio_mode {
            Rgba { r: 46, g: 53, b: 64, a: 255 }
        } else {
            Rgba { r: 138, g: 148, b: 166, a: 255 }
        }),
        creative_caption_spec(studio_mode) == (if studio_mode {
            Rgba { r: 138, g: 148, b: 166, a: 255 }
        } else {
            Rgba { r: 46, g: 53, b: 64, a: 255 }
        }),
{
}

/// An inactive filter button draws no fill and no outline and a grey
/// caption; an active one an opaque pale fill with a teal outline and
/// caption of the same colour as its icon.
pub proof fn filter_button_style_values(active: bool)
    ensures
        !active ==> filter_button_style_spec(active).background.a == 0
            && filter_button_style_spec(active).border is None && filter_button_style_spec(
            active,
        ).label == (Rgba { r: 113, g: 128, b: 150, a: 255 }),
        active ==> filter_button_style_spec(active).background == (Rgba {
            r: 235,
            g: 253,
            b: 250,
            a: 255,
        }) && filter_button_style_spec(active).border == Some(Rgba { r: 44, g: 229, b: 196, a: 255 })
            && filter_button_style_spec(active).label == (Rgba { r: 44, g: 229, b: 196, a: 255 }),
{
}

} // verus!
