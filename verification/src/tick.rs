//! The tick driver: one simulation step in four strictly ordered phases —
//! drain one intent from the queue, resolve it against the table, evaluate
//! the gameplay state, and emit the sound cue.  No phase is skipped; with
//! an empty queue the resolve phase simply has nothing to do.

use vstd::prelude::*;

use crate::events::{emit, spec_cue, SoundCue};
use crate::gameplay::{counts_as_move, spec_status_after};
use crate::resolver::{resolve, spec_next, spec_outcome, MoveOutcome};
use crate::resources::{Gameplay, GameplayState, InputQueue};
use crate::world::{box_count, wf, World};

verus! {

/// Runs one full tick and returns the cue to hand to the audio sink.
///
/// With an empty queue the tick changes nothing but the status, which the
/// evaluator recomputes — stably, so replaying an empty queue any number of
/// times changes no state at all.  With a pending intent the front intent
/// is drained and the table, the counter and the status advance exactly as
/// the resolution and evaluation models say.  Boxes are conserved and a
/// won session stays won in every case.
pub fn tick(world: &mut World, queue: &mut InputQueue, gameplay: &mut Gameplay) -> (cue: Option<
    SoundCue,
>)
    requires
        wf(*old(world)),
        old(gameplay).moves_count < u32::MAX,
    ensures
        wf(*final(world)),
        final(world).width == old(world).width,
        final(world).height == old(world).height,
        final(world).renderables@ == old(world).renderables@,
        box_count(final(world).entities@) == box_count(old(world).entities@),
        old(gameplay).state == GameplayState::Won ==> final(gameplay).state == GameplayState::Won,
        old(queue).keys_pressed@.len() == 0 ==> ({
            &&& final(queue).keys_pressed@ == old(queue).keys_pressed@
            &&& final(world).entities@ == old(world).entities@
            &&& final(gameplay).moves_count == old(gameplay).moves_count
            &&& final(gameplay).state == spec_status_after(
                old(gameplay).state,
                old(world).entities@,
            )
            &&& cue is None
        }),
        old(queue).keys_pressed@.len() > 0 ==> ({
            let d = old(queue).keys_pressed@[0];
            let o = spec_outcome(*old(world), d);
            &&& final(queue).keys_pressed@ == old(queue).keys_pressed@.subrange(
                1,
                old(queue).keys_pressed@.len() as int,
            )
            &&& final(world).entities@ == spec_next(*old(world), d)
            &&& final(gameplay).moves_count == old(gameplay).moves_count + (if counts_as_move(
                Some(o),
            ) {
                1int
            } else {
                0int
            })
            &&& final(gameplay).state == spec_status_after(
                old(gameplay).state,
                spec_next(*old(world), d),
            )
            &&& cue == spec_cue(Some(o))
        }),
{
    let intent = queue.drain_one();
    let outcome: Option<MoveOutcome> = match intent {
        Some(d) => Some(resolve(world, d)),
        None => None,
    };
    gameplay.evaluate(outcome, world);
    emit(outcome)
}

} // verus!
