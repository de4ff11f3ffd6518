//! The emit phase: translates one tick outcome into at most one sound cue
//! for the audio collaborator.  The cue names are the trigger conditions
//! the core owns; playing (or failing to play) a sound is not its concern.

use vstd::prelude::*;

use crate::resolver::MoveOutcome;

verus! {

/// A sound cue derived from a tick outcome.
#[derive(Clone, Copy, Debug, PartialEq, Eq, Structural)]
pub enum SoundCue {
    /// A box landed on a target spot.
    Correct,
    /// The move was rejected.
    Incorrect,
}

/// The cue of one tick outcome: a rejected move sounds incorrect, a push
/// that lands a box on a spot sounds correct, and every other outcome —
/// a plain step, a push onto a free cell, an empty queue — is silent.
pub open spec fn spec_cue(outcome: Option<MoveOutcome>) -> Option<SoundCue> {
    match outcome {
        Some(MoveOutcome::Blocked) => Some(SoundCue::Incorrect),
        Some(MoveOutcome::BoxPushed { on_spot, left_spot }) => if on_spot {
            Some(SoundCue::Correct)
        } else {
            None
        },
        _ => None,
    }
}

/// Translates one tick outcome into zero or one sound cue.
pub fn emit(outcome: Option<MoveOutcome>) -> (cue: Option<SoundCue>)
    ensures
        cue == spec_cue(outcome),
{
    match outcome {
        Some(MoveOutcome::Blocked) => Some(SoundCue::Incorrect),
        Some(MoveOutcome::BoxPushed { on_spot, left_spot: _ }) => if on_spot {
            Some(SoundCue::Correct)
        } else {
            None
        },
        _ => None,
    }
}

} // verus!
