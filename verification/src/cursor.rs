//! Which mouse cursor the lower panel asks for, from the pointer's relation
//! to each of its widgets.
use vstd::prelude::*;

verus! {

/// The pointer's relation to one widget during a frame.
#[derive(Clone, Copy, Debug, PartialEq, Eq, Structural)]
pub struct WidgetPointer {
    /// The pointer is over the widget.
    pub hovered: bool,
    /// The widget is being dragged.
    pub dragged: bool,
}

/// The pointer's relation to each interactive widget of the lower panel.
#[derive(Clone, Copy, Debug, PartialEq, Eq, Structural)]
pub struct PanelPointer {
    pub tempo: WidgetPointer,
    pub regen: WidgetPointer,
    pub mix: WidgetPointer,
    pub brightness: WidgetPointer,
    pub color: WidgetPointer,
    pub sparkle: WidgetPointer,
    pub output: WidgetPointer,
}

/// A cursor shape the panel asks the host for.
#[derive(Clone, Copy, Debug, PartialEq, Eq, Structural)]
pub enum CursorShape {
    /// Vertical resize arrows, over the stepped tempo knob.
    ResizeVertical,
    /// Open hand, over a continuous knob.
    Grab,
    /// Closed hand, while a continuous knob is dragged.
    Grabbing,
    /// Pointing hand, over a button.
    PointingHand,
}

/// Cursor over a continuous knob: a closed hand while it is dragged.
pub open spec fn knob_cursor(w: WidgetPointer) -> CursorShape {
    if w.dragged {
        CursorShape::Grabbing
    } else {
        CursorShape::Grab
    }
}

/// The cursor of the hovered widget that comes last in the order tempo,
/// regen, mix, brightness, color, sparkle, output; none when no widget is
/// hovered.
pub open spec fn panel_cursor_spec(p: PanelPointer) -> Option<CursorShape> {
    if p.output.hovered {
        Some(knob_cursor(p.output))
    } else if p.sparkle.hovered {
        Some(CursorShape::PointingHand)
    } else if p.color.hovered {
        Some(CursorShape::PointingHand)
    } else if p.brightness.hovered {
        Some(CursorShape::PointingHand)
    } else if p.mix.hovered {
        Some(knob_cursor(p.mix))
    } else if p.regen.hovered {
        Some(knob_cursor(p.regen))
    } else if p.tempo.hovered {
        Some(CursorShape::ResizeVertical)
    } else {
        None
    }
}

fn knob_cursor_of(w: WidgetPointer) -> (c: CursorShape)
    ensures
        c == knob_cursor(w),
{
    if w.dragged {
        CursorShape::Grabbing
    } else {
        CursorShape::Grab
    }
}

/// The cursor the lower panel asks for: each hovered widget, visited in
/// drawing order, replaces the request of the ones before it; `None` means
/// the panel asks for nothing and the host keeps its own cursor.
pub fn panel_cursor(p: &PanelPointer) -> (c: Option<CursorShape>)
    ensures
        c == panel_cursor_spec(*p),
{
    let mut c: Option<CursorShape> = None;
    if p.tempo.hovered {
        c = Some(CursorShape::ResizeVertical);
    }
    if p.regen.hovered {
        c = Some(knob_cursor_of(p.regen));
    }
    if p.mix.hovered {
        c = Some(knob_cursor_of(p.mix));
    }
    if p.brightness.hovered {
        c = Some(CursorShape::PointingHand);
    }
    if p.color.hovered {
        c = Some(CursorShape::PointingHand);
    }
    if p.sparkle.hovered {
        c = Some(CursorShape::PointingHand);
    }
    if p.output.hovered {
        c = Some(knob_cursor_of(p.output));
    }
    c
}

/// The panel asks for a cursor exactly when some widget is hovered, and a
/// closed hand only while a hovered knob is dragged.
pub proof fn cursor_requested_iff_hovered(p: PanelPointer)
    ensures
        panel_cursor_spec(p) is Some <==> (p.tempo.hovered || p.regen.hovered || p.mix.hovered
            || p.brightness.hovered || p.color.hovered || p.sparkle.hovered || p.output.hovered),
        panel_cursor_spec(p) == Some(CursorShape::Grabbing) ==> (p.regen.hovered && p.regen.dragged)
            || (p.mix.hovered && p.mix.dragged) || (p.output.hovered && p.output.dragged),
{
}

} // verus!

verus! {

/// The cursor is that of the hovered widget drawn last: the output knob,
/// then the three filter buttons, then the mix knob, then the regen knob,
/// then the tempo knob. Over a continuous knob it is the open hand, or the
/// closed hand while that knob is dragged; over a button the pointing hand;
/// over the tempo knob the vertical resize arrows; with nothing hovered,
/// no request.
pub proof fn cursor_follows_last_hovered_widget(p: PanelPointer)
    ensures
        p.output.hovered ==> panel_cursor_spec(p) == Some(
            if p.output.dragged {
                CursorShape::Grabbing
            } else {
                CursorShape::Grab
            },
        ),
        !p.output.hovered && (p.sparkle.hovered || p.color.hovered || p.brightness.hovered)
            ==> panel_cursor_spec(p) == Some(CursorShape::PointingHand),
        !p.output.hovered && !p.sparkle.hovered && !p.color.hovered && !p.brightness.hovered
            && p.mix.hovered ==> panel_cursor_spec(p) == Some(
            if p.mix.dragged {
                CursorShape::Grabbing
            } else {
                CursorShape::Grab
            },
        ),
        !p.output.hovered && !p.sparkle.hovered && !p.color.hovered && !p.brightness.hovered
            && !p.mix.hovered && p.regen.hovered ==> panel_cursor_spec(p) == Some(
            if p.regen.dragged {
                CursorShape::Grabbing
            } else {
                CursorShape::Grab
            },
        ),
        !p.output.hovered && !p.sparkle.hovered && !p.color.hovered && !p.brightness.hovered
            && !p.mix.hovered && !p.regen.hovered && p.tempo.hovered ==> panel_cursor_spec(p)
            == Some(CursorShape::ResizeVertical),
        !p.output.hovered && !p.sparkle.hovered && !p.color.hovered && !p.brightness.hovered
            && !p.mix.hovered && !p.regen.hovered && !p.tempo.hovered ==> panel_cursor_spec(p)
            == None::<CursorShape>,
{
}

/// Each cursor shape names the kind of widget under the pointer: the
/// pointing hand only over a button, the open hand only over an undragged
/// continuous knob, the resize arrows only over the tempo knob.
pub proof fn cursor_shape_names_widget_kind(p: PanelPointer)
    ensures
        panel_cursor_spec(p) == Some(CursorShape::PointingHand) ==> p.brightness.hovered
            || p.color.hovered || p.sparkle.hovered,
        panel_cursor_spec(p) == Some(CursorShape::Grab) ==> (p.regen.hovered && !p.regen.dragged)
            || (p.mix.hovered && !p.mix.dragged) || (p.output.hovered && !p.output.dragged),
        panel_cursor_spec(p) == Some(CursorShape::ResizeVertical) ==> p.tempo.hovered,
{
}

} // verus!
