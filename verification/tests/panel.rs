use delay_vst::panel::{next_panel, tempo_label, tempo_values_len, PanelEvent, PanelState, PanelView, TEMPO_LABEL_COUNT};

const TOGGLES: [PanelEvent; 5] = [
    PanelEvent::ToggleStudioMode,
    PanelEvent::ToggleAutoGain,
    PanelEvent::ToggleBrightness,
    PanelEvent::ToggleColor,
    PanelEvent::ToggleSparkle,
];

const ALL_EVENTS: [PanelEvent; 7] = [
    PanelEvent::ToggleStudioMode,
    PanelEvent::ToggleAutoGain,
    PanelEvent::ToggleBrightness,
    PanelEvent::ToggleColor,
    PanelEvent::ToggleSparkle,
    PanelEvent::TempoDown,
    PanelEvent::TempoUp,
];

fn view(tempo_index: usize) -> PanelView {
    PanelView {
        tempo_index,
        studio_mode: true,
        auto_gain: false,
        brightness_active: true,
        color_active: false,
        sparkle_active: true,
    }
}

#[test]
fn initial_panel_matches_editor_defaults() {
    let p = PanelState::new();
    assert_eq!(p.tempo_index(), 2);
    assert_eq!(p.tempo_caption(), "1/8");
    assert!(p.studio_mode());
    assert!(p.auto_gain());
    assert!(!p.brightness_active());
    assert!(!p.color_active());
    assert!(!p.sparkle_active());
}

#[test]
fn tempo_labels_in_order() {
    let expected = ["1/32", "1/16", "1/8", "1/4", "1/2", "1/1"];
    assert_eq!(TEMPO_LABEL_COUNT, 6);
    for (i, e) in expected.iter().enumerate() {
        assert_eq!(tempo_label(i), *e);
    }
}

#[test]
fn tempo_values_len_is_highest_index() {
    assert_eq!(tempo_values_len(), 5);
    assert_eq!(tempo_values_len() + 1, TEMPO_LABEL_COUNT);
}

#[test]
fn tempo_down_stops_at_shortest_division() {
    let mut p = PanelState::new();
    p.apply(PanelEvent::TempoDown);
    assert_eq!(p.tempo_caption(), "1/16");
    p.apply(PanelEvent::TempoDown);
    assert_eq!(p.tempo_index(), 0);
    p.apply(PanelEvent::TempoDown);
    assert_eq!(p.tempo_index(), 0);
    assert_eq!(p.tempo_caption(), "1/32");
}

#[test]
fn tempo_up_stops_at_longest_division() {
    let mut p = PanelState::new();
    for _ in 0..10 {
        p.apply(PanelEvent::TempoUp);
    }
    assert_eq!(p.tempo_index(), 5);
    assert_eq!(p.tempo_caption(), "1/1");
}

#[test]
fn toggles_flip_only_their_switch() {
    let mut p = PanelState::new();
    p.apply(PanelEvent::ToggleStudioMode);
    assert!(!p.studio_mode());
    assert!(p.auto_gain());
    p.apply(PanelEvent::ToggleAutoGain);
    assert!(!p.auto_gain());
    p.apply(PanelEvent::ToggleBrightness);
    assert!(p.brightness_active());
    p.apply(PanelEvent::ToggleColor);
    assert!(p.color_active());
    p.apply(PanelEvent::ToggleSparkle);
    assert!(p.sparkle_active());
    assert_eq!(p.tempo_index(), 2);
    assert!(!p.studio_mode());
}

#[test]
fn toggle_twice_restores_on_values() {
    for i in 0..=5 {
        let s = view(i);
        for t in TOGGLES {
            assert_eq!(next_panel(next_panel(s, t), t), s);
        }
    }
}

#[test]
fn toggle_commutes_on_values() {
    for i in 0..=5 {
        let s = view(i);
        for t in TOGGLES {
            for e in ALL_EVENTS {
                assert_eq!(next_panel(next_panel(s, t), e), next_panel(next_panel(s, e), t));
            }
        }
    }
}

#[test]
fn tempo_steps_undo_each_other_on_values() {
    for i in 1..=5 {
        let s = view(i);
        assert_eq!(next_panel(next_panel(s, PanelEvent::TempoDown), PanelEvent::TempoUp), s);
    }
    for i in 0..5 {
        let s = view(i);
        assert_eq!(next_panel(next_panel(s, PanelEvent::TempoUp), PanelEvent::TempoDown), s);
    }
    // Held at an end, the pair does not undo.
    let top = view(5);
    assert_eq!(next_panel(next_panel(top, PanelEvent::TempoUp), PanelEvent::TempoDown).tempo_index, 4);
}

#[test]
fn long_gesture_sequence_keeps_tempo_in_range() {
    let mut p = PanelState::new();
    let pattern = [
        PanelEvent::TempoUp,
        PanelEvent::TempoUp,
        PanelEvent::ToggleColor,
        PanelEvent::TempoUp,
        PanelEvent::TempoUp,
        PanelEvent::TempoUp,
        PanelEvent::TempoDown,
        PanelEvent::TempoUp,
    ];
    for round in 0..20 {
        for e in pattern {
            p.apply(e);
            assert!(p.tempo_index() < TEMPO_LABEL_COUNT);
            let _ = p.tempo_caption();
        }
        if round % 3 == 0 {
            for _ in 0..7 {
                p.apply(PanelEvent::TempoDown);
            }
            assert_eq!(p.tempo_index(), 0);
        }
    }
    let v = p.controls();
    assert_eq!(v.tempo_index, p.tempo_index());
}
