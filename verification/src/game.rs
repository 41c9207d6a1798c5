//! What the modification reads from the game's settings.

use vstd::prelude::*;

verus! {

/// How the game shows its heads-up display.
#[derive(Clone, Copy, Debug, PartialEq, Eq, Structural)]
pub enum HudType {
    Off,
    On,
    Auto,
}

/// Whether the heads-up display is shown at all: under every setting but
/// [`HudType::Off`].
pub fn is_hud_enabled(hud_type: HudType) -> (enabled: bool)
    ensures
        enabled == (hud_type != HudType::Off),
{
    match hud_type {
        HudType::Off => false,
        HudType::On => true,
        HudType::Auto => true,
    }
}

} // verus!
