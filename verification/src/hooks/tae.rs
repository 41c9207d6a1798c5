//! Animation events whose arguments are replaced in first person.
//!
//! While the player is in first person, two kinds of animation event of the
//! player's own character run with changed arguments: the event that aims a
//! projectile loses its dead zones, and the event that twists the upper body
//! towards the target loses its minimum angles.

use vstd::prelude::*;

verus! {

/// The kind of an animation event, as far as the hook tells kinds apart.
#[derive(Clone, Copy, Debug, PartialEq, Eq, Structural)]
pub enum TaeEvent {
    SetBulletAimAngle,
    EnableTwistModifier,
    Other,
}

/// The arguments that are replaced.
#[derive(Clone, Copy, Debug, PartialEq, Eq, Structural)]
pub enum TaeArgsOverride {
    /// The aiming arguments, with both dead zones set to nothing.
    SetBulletAimAngleArgs,
    /// The twisting arguments, with both minimum angles set to nothing.
    EnableTwistModifierArgs,
}

/// Which arguments an event of the kind `event` runs with: those of an
/// event of the main player's character, while in first person, are
/// replaced according to the event's kind; all others are left alone.
pub open spec fn tae_args_override(
    owner: usize,
    main_player: Option<usize>,
    first_person: bool,
    event: TaeEvent,
) -> Option<TaeArgsOverride> {
    if main_player == Some(owner) && first_person {
        match event {
            TaeEvent::SetBulletAimAngle => Some(TaeArgsOverride::SetBulletAimAngleArgs),
            TaeEvent::EnableTwistModifier => Some(TaeArgsOverride::EnableTwistModifierArgs),
            TaeEvent::Other => None,
        }
    } else {
        None
    }
}

/// Decides which arguments to replace for an event of the character at the
/// address `owner`, where the main player's character, if there is one, is at
/// `main_player`.
pub fn override_tae_args(
    owner: usize,
    main_player: Option<usize>,
    first_person: bool,
    event: TaeEvent,
) -> (replaced: Option<TaeArgsOverride>)
    ensures
        replaced == tae_args_override(owner, main_player, first_person, event),
{
    let owned_by_player = match main_player {
        Some(player) => player == owner,
        None => false,
    };
    if !owned_by_player || !first_person {
        return None;
    }
    match event {
        TaeEvent::SetBulletAimAngle => Some(TaeArgsOverride::SetBulletAimAngleArgs),
        TaeEvent::EnableTwistModifier => Some(TaeArgsOverride::EnableTwistModifierArgs),
        TaeEvent::Other => None,
    }
}

} // verus!
