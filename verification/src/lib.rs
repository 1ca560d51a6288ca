//! Verified control logic of the "Delay VST Replica" editor panel: the
//! selector and switch state machine, the colour decisions of the panel,
//! the level-meter segments, the cursor choice and the drop-shadow rings.
//! Rendering and all floating-point geometry live with the host glue.
use vstd::prelude::*;

pub mod cursor;
pub mod meter;
pub mod palette;
pub mod panel;
pub mod shadow;

verus! {

/// Width, in logical pixels, of the editor window the plugin asks its host for.
pub const EDITOR_WIDTH: u32 = 570;

/// Height, in logical pixels, of the editor window the plugin asks its host for.
pub const EDITOR_HEIGHT: u32 = 480;

} // verus!
