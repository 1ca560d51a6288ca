# delay_vst

Control logic of the "Delay VST Replica" plugin editor, verified with Verus.

- `src/panel.rs` — the tempo selector and the five switches as a state
  machine (`PanelEvent` → `step`), with the invariant that the tempo index
  always names one of the six divisions, and its laws.
- `src/palette.rs` — colours, and the colour choices of the mode switch,
  the auto-gain light and the filter buttons.
- `src/meter.rs` — which level-meter segments are lit, and in which band.
- `src/cursor.rs` — the cursor the lower panel asks for.
- `src/shadow.rs` — the rings of the face's drop shadow.
- `app/lib.rs` — the NIH-plug plugin type and the egui drawing code, which
  holds all floating-point geometry and animation and calls the library for
  every decision above.
