//! The state of the panel's discrete controls (tempo selector and the five
//! switches) and how user gestures change it.
use vstd::prelude::*;

verus! {

/// Number of tempo divisions the selector offers.
pub const TEMPO_LABEL_COUNT: usize = 6;

/// Highest index the tempo selector may reach.
pub open spec fn max_tempo_index() -> usize {
    5
}

/// Highest index the tempo selector may reach; one less than the number of
/// tempo divisions.
pub fn tempo_values_len() -> (n: usize)
    ensures
        n == max_tempo_index(),
        n + 1 == TEMPO_LABEL_COUNT,
{
    5
}

/// Caption of each tempo division, from the shortest to the longest note.
pub open spec fn tempo_label_text(index: int) -> Seq<char> {
    if index == 0 {
        "1/32"@
    } else if index == 1 {
        "1/16"@
    } else if index == 2 {
        "1/8"@
    } else if index == 3 {
        "1/4"@
    } else if index == 4 {
        "1/2"@
    } else {
        "1/1"@
    }
}

/// Caption of the tempo division at `index`.
pub fn tempo_label(index: usize) -> (s: &'static str)
    requires
        index < TEMPO_LABEL_COUNT,
    ensures
        s@ == tempo_label_text(index as int),
{
    if index == 0 {
        "1/32"
    } else if index == 1 {
        "1/16"
    } else if index == 2 {
        "1/8"
    } else if index == 3 {
        "1/4"
    } else if index == 4 {
        "1/2"
    } else {
        "1/1"
    }
}

/// A user gesture on one of the panel's discrete controls.
#[derive(Clone, Copy, Debug, PartialEq, Eq, Structural)]
pub enum PanelEvent {
    /// A click on the STUDIO / CREATIVE switch.
    ToggleStudioMode,
    /// A click on the AUTO GAIN switch.
    ToggleAutoGain,
    /// A click on the BRIGHTNESS filter button.
    ToggleBrightness,
    /// A click on the COLOR filter button.
    ToggleColor,
    /// A click on the SPARKLE filter button.
    ToggleSparkle,
    /// A downward drag on the tempo knob that went past its threshold.
    TempoDown,
    /// An upward drag on the tempo knob that went past its threshold.
    TempoUp,
}

impl PanelEvent {
    /// Whether the event flips one of the five switches.
    pub open spec fn is_toggle(self) -> bool {
        !(self is TempoDown) && !(self is TempoUp)
    }
}

/// The discrete controls of the panel, as plain values.
#[derive(Clone, Copy, Debug, PartialEq, Eq, Structural)]
pub struct PanelView {
    /// Index of the selected tempo division (see `tempo_label`).
    pub tempo_index: usize,
    /// STUDIO (true) or CREATIVE (false) mode.
    pub studio_mode: bool,
    pub auto_gain: bool,
    pub brightness_active: bool,
    pub color_active: bool,
    pub sparkle_active: bool,
}

impl PanelView {
    /// The tempo index names one of the tempo divisions.
    pub open spec fn wf(self) -> bool {
        self.tempo_index <= max_tempo_index()
    }
}

/// The controls as the editor first shows them: tempo 1/8, studio mode,
/// auto gain on, every filter off.
pub open spec fn initial_panel() -> PanelView {
    PanelView {
        tempo_index: 2,
        studio_mode: true,
        auto_gain: true,
        brightness_active: false,
        color_active: false,
        sparkle_active: false,
    }
}

/// The controls after one gesture.
pub open spec fn step(s: PanelView, e: PanelEvent) -> PanelView {
    match e {
        PanelEvent::ToggleStudioMode => PanelView { studio_mode: !s.studio_mode, ..s },
        PanelEvent::ToggleAutoGain => PanelView { auto_gain: !s.auto_gain, ..s },
        PanelEvent::ToggleBrightness => PanelView { brightness_active: !s.brightness_active, ..s },
        PanelEvent::ToggleColor => PanelView { color_active: !s.color_active, ..s },
        PanelEvent::ToggleSparkle => PanelView { sparkle_active: !s.sparkle_active, ..s },
        PanelEvent::TempoDown => if s.tempo_index > 0 {
            PanelView { tempo_index: (s.tempo_index - 1) as usize, ..s }
        } else {
            s
        },
        PanelEvent::TempoUp => if s.tempo_index < max_tempo_index() {
            PanelView { tempo_index: (s.tempo_index + 1) as usize, ..s }
        } else {
            s
        },
    }
}

/// The controls after a sequence of gestures, applied in order.
pub open spec fn run(s: PanelView, events: Seq<PanelEvent>) -> PanelView
    decreases events.len(),
{
    if events.len() == 0 {
        s
    } else {
        step(run(s, events.drop_last()), events.last())
    }
}

/// Applies one gesture: a toggle flips its switch; a tempo step moves the
/// selector one division down or up unless it already stands at that end.
pub fn next_panel(s: PanelView, e: PanelEvent) -> (t: PanelView)
    ensures
        t == step(s, e),
{
    match e {
        PanelEvent::ToggleStudioMode => PanelView { studio_mode: !s.studio_mode, ..s },
        PanelEvent::ToggleAutoGain => PanelView { auto_gain: !s.auto_gain, ..s },
        PanelEvent::ToggleBrightness => PanelView { brightness_active: !s.brightness_active, ..s },
        PanelEvent::ToggleColor => PanelView { color_active: !s.color_active, ..s },
        PanelEvent::ToggleSparkle => PanelView { sparkle_active: !s.sparkle_active, ..s },
        PanelEvent::TempoDown => {
            if s.tempo_index > 0 {
                PanelView { tempo_index: s.tempo_index - 1, ..s }
            } else {
                s
            }
        },
        PanelEvent::TempoUp => {
            if s.tempo_index < tempo_values_len() {
                PanelView { tempo_index: s.tempo_index + 1, ..s }
            } else {
                s
            }
        },
    }
}

/// The discrete controls of the panel, whose tempo index always names one of
/// the tempo divisions.
pub struct PanelState {
    controls: PanelView,
}

impl View for PanelState {
    type V = PanelView;

    closed spec fn view(&self) -> PanelView {
        self.controls
    }
}

impl PanelState {
    #[verifier::type_invariant]
    spec fn inv(self) -> bool {
        self.controls.wf()
    }

    /// The controls as the editor first shows them.
    pub fn new() -> (p: PanelState)
        ensures
            p@ == initial_panel(),
    {
        PanelState {
            controls: PanelView {
                tempo_index: 2,
                studio_mode: true,
                auto_gain: true,
                brightness_active: false,
                color_active: false,
                sparkle_active: false,
            },
        }
    }

    /// Applies one gesture to the controls.
    pub fn apply(&mut self, e: PanelEvent)
        ensures
            final(self)@ == step(old(self)@, e),
            final(self)@.wf(),
    {
        proof {
            use_type_invariant(&*self);
            step_preserves_wf(self.controls, e);
        }
        self.controls = next_panel(self.controls, e);
    }

    /// The controls as plain values.
    pub fn controls(&self) -> (v: PanelView)
        ensures
            v == self@,
            v.wf(),
    {
        proof {
            use_type_invariant(self);
        }
        self.controls
    }

    /// Index of the selected tempo division.
    pub fn tempo_index(&self) -> (i: usize)
        ensures
            i == self@.tempo_index,
            i <= max_tempo_index(),
    {
        proof {
            use_type_invariant(self);
        }
        self.controls.tempo_index
    }

    /// Caption of the selected tempo division.
    pub fn tempo_caption(&self) -> (s: &'static str)
        ensures
            s@ == tempo_label_text(self@.tempo_index as int),
    {
        proof {
            use_type_invariant(self);
        }
        tempo_label(self.controls.tempo_index)
    }

    /// STUDIO (true) or CREATIVE (false) mode.
    pub fn studio_mode(&self) -> (b: bool)
        ensures
            b == self@.studio_mode,
    {
        self.controls.studio_mode
    }

    /// Whether auto gain is on.
    pub fn auto_gain(&self) -> (b: bool)
        ensures
            b == self@.auto_gain,
    {
        self.controls.auto_gain
    }

    /// Whether the brightness filter is on.
    pub fn brightness_active(&self) -> (b: bool)
        ensures
            b == self@.brightness_active,
    {
        self.controls.brightness_active
    }

    /// Whether the color filter is on.
    pub fn color_active(&self) -> (b: bool)
        ensures
            b == self@.color_active,
    {
        self.controls.color_active
    }

    /// Whether the sparkle filter is on.
    pub fn sparkle_active(&self) -> (b: bool)
        ensures
            b == self@.sparkle_active,
    {
        self.controls.sparkle_active
    }
}

/// Every gesture keeps the tempo index on one of the tempo divisions.
pub proof fn step_preserves_wf(s: PanelView, e: PanelEvent)
    requires
        s.wf(),
    ensures
        step(s, e).wf(),
{
}

/// Any sequence of gestures keeps the tempo index on one of the tempo
/// divisions, so the caption of the selected division always exists.
pub proof fn run_preserves_wf(s: PanelView, events: Seq<PanelEvent>)
    requires
        s.wf(),
    ensures
        run(s, events).wf(),
        run(s, events).tempo_index < TEMPO_LABEL_COUNT,
    decreases events.len(),
{
    if events.len() > 0 {
        run_preserves_wf(s, events.drop_last());
        step_preserves_wf(run(s, events.drop_last()), events.last());
    }
}

/// Clicking the same switch twice restores the controls.
pub proof fn toggle_twice_restores(s: PanelView, e: PanelEvent)
    requires
        e.is_toggle(),
    ensures
        step(step(s, e), e) == s,
{
}

/// A click on a switch is independent of any other gesture: applying the
/// two in either order gives the same controls.
pub proof fn toggle_commutes(s: PanelView, t: PanelEvent, e: PanelEvent)
    requires
        t.is_toggle(),
    ensures
        step(step(s, t), e) == step(step(s, e), t),
{
}

/// A tempo step undoes the opposite step, unless the first step was held
/// at an end of the range.
pub proof fn tempo_steps_undo_each_other(s: PanelView)
    requires
        s.wf(),
    ensures
        s.tempo_index > 0 ==> step(step(s, PanelEvent::TempoDown), PanelEvent::TempoUp) == s,
        s.tempo_index < max_tempo_index() ==> step(step(s, PanelEvent::TempoUp), PanelEvent::TempoDown)
            == s,
{
}

/// The tempo selector stops at its ends: stepping down from the shortest
/// division or up from the longest one changes nothing.
pub proof fn tempo_saturates_at_ends(s: PanelView)
    requires
        s.wf(),
    ensures
        s.tempo_index == 0 ==> step(s, PanelEvent::TempoDown) == s,
        s.tempo_index == max_tempo_index() ==> step(s, PanelEvent::TempoUp) == s,
{
}

/// A tempo step changes only the tempo index, and by one division at most;
/// a toggle leaves the tempo index alone.
pub proof fn tempo_moves_by_at_most_one(s: PanelView, e: PanelEvent)
    ensures
        step(s, e).studio_mode == s.studio_mode || e == PanelEvent::ToggleStudioMode,
        e.is_toggle() ==> step(s, e).tempo_index == s.tempo_index,
        !e.is_toggle() ==> step(s, e) == (PanelView { tempo_index: step(s, e).tempo_index, ..s }),
        -1 <= step(s, e).tempo_index - s.tempo_index <= 1,
{
}

} // verus!

verus! {

/// A click on a switch flips that switch and nothing else: the tempo index
/// and the four other switches keep their values.
pub proof fn toggle_flips_only_its_switch(s: PanelView)
    ensures
        step(s, PanelEvent::ToggleStudioMode) == (PanelView {
            tempo_index: s.tempo_index,
            studio_mode: !s.studio_mode,
            auto_gain: s.auto_gain,
            brightness_active: s.brightness_active,
            color_active: s.color_active,
            sparkle_active: s.sparkle_active,
        }),
        step(s, PanelEvent::ToggleAutoGain) == (PanelView {
            tempo_index: s.tempo_index,
            studio_mode: s.studio_mode,
            auto_gain: !s.auto_gain,
            brightness_active: s.brightness_active,
            color_active: s.color_active,
            sparkle_active: s.sparkle_active,
        }),
        step(s, PanelEvent::ToggleBrightness) == (PanelView {
            tempo_index: s.tempo_index,
            studio_mode: s.studio_mode,
            auto_gain: s.auto_gain,
            brightness_active: !s.brightness_active,
            color_active: s.color_active,
            sparkle_active: s.sparkle_active,
        }),
        step(s, PanelEvent::ToggleColor) == (PanelView {
            tempo_index: s.tempo_index,
            studio_mode: s.studio_mode,
            auto_gain: s.auto_gain,
            brightness_active: s.brightness_active,
            color_active: !s.color_active,
            sparkle_active: s.sparkle_active,
        }),
        step(s, PanelEvent::ToggleSparkle) == (PanelView {
            tempo_index: s.tempo_index,
            studio_mode: s.studio_mode,
            auto_gain: s.auto_gain,
            brightness_active: s.brightness_active,
            color_active: s.color_active,
            sparkle_active: !s.sparkle_active,
        }),
{
}

/// Each switch changes exactly on a click on its own control, and the tempo
/// index changes only on a tempo step.
pub proof fn switch_changes_only_on_its_own_click(s: PanelView, e: PanelEvent)
    ensures
        step(s, e).studio_mode != s.studio_mode <==> e == PanelEvent::ToggleStudioMode,
        step(s, e).auto_gain != s.auto_gain <==> e == PanelEvent::ToggleAutoGain,
        step(s, e).brightness_active != s.brightness_active <==> e == PanelEvent::ToggleBrightness,
        step(s, e).color_active != s.color_active <==> e == PanelEvent::ToggleColor,
        step(s, e).sparkle_active != s.sparkle_active <==> e == PanelEvent::ToggleSparkle,
        step(s, e).tempo_index != s.tempo_index ==> (e == PanelEvent::TempoDown || e
            == PanelEvent::TempoUp),
{
}

/// A tempo step moves the selector one division toward its end, stopping at
/// the shortest (0) and longest (5) divisions, and changes no switch.
pub proof fn tempo_step_moves_one_division(s: PanelView)
    requires
        s.wf(),
    ensures
        step(s, PanelEvent::TempoDown).tempo_index == (if s.tempo_index == 0 {
            0
        } else {
            s.tempo_index - 1
        }),
        step(s, PanelEvent::TempoUp).tempo_index == (if s.tempo_index == 5 {
            5
        } else {
            s.tempo_index + 1
        }),
        step(s, PanelEvent::TempoDown) == (PanelView {
            tempo_index: step(s, PanelEvent::TempoDown).tempo_index,
            ..s
        }),
        step(s, PanelEvent::TempoUp) == (PanelView {
            tempo_index: step(s, PanelEvent::TempoUp).tempo_index,
            ..s
        }),
{
}

} // verus!

verus! {

/// The editor opens on the 1/8 division, in studio mode, with auto gain on
/// and all three filters off.
pub proof fn initial_panel_values()
    ensures
        initial_panel().tempo_index == 2,
        tempo_label_text(initial_panel().tempo_index as int) == "1/8"@,
        initial_panel().studio_mode,
        initial_panel().auto_gain,
        !initial_panel().brightness_active,
        !initial_panel().color_active,
        !initial_panel().sparkle_active,
        initial_panel().wf(),
{
}

/// The six tempo captions, from index 0 up, are 1/32, 1/16, 1/8, 1/4, 1/2
/// and 1/1: each step up doubles the note length.
pub proof fn tempo_captions_in_order(index: int)
    requires
        0 <= index < TEMPO_LABEL_COUNT,
    ensures
        tempo_label_text(index) == seq!["1/32"@, "1/16"@, "1/8"@, "1/4"@, "1/2"@, "1/1"@][index],
{
}

} // verus!
