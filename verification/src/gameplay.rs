//! The gameplay state evaluator: runs once per tick after the movement
//! resolver, counts the resolved moves and decides the win status.

use vstd::prelude::*;

use crate::components::Entity;
use crate::resolver::MoveOutcome;
use crate::resources::{Gameplay, GameplayState};
use crate::world::{spot_at, World};

verus! {

/// Whether the table holds at least one box entity.
pub open spec fn has_box(es: Seq<Entity>) -> bool {
    exists|i: int| 0 <= i < es.len() && (#[trigger] es[i]).is_box
}

/// Whether every box stands on some target spot.  The coincidence is pure
/// positional equality, recomputed by scanning — never a cached relation.
pub open spec fn all_boxes_on_spots(es: Seq<Entity>) -> bool {
    forall|i: int|
        0 <= i < es.len() && (#[trigger] es[i]).is_box ==> spot_at(
            es,
            es[i].position.x as int,
            es[i].position.y as int,
        )
}

/// Whether a tick outcome counts as a move: a step or a push does, a
/// blocked intent or an empty queue does not.
pub open spec fn counts_as_move(outcome: Option<MoveOutcome>) -> bool {
    match outcome {
        Some(MoveOutcome::PlayerMoved) => true,
        Some(MoveOutcome::BoxPushed { .. }) => true,
        _ => false,
    }
}

/// The status after one evaluation over table `es`: a session already won
/// stays won; otherwise it is won exactly when the table holds at least
/// one box and every box stands on a spot.
pub open spec fn spec_status_after(s: GameplayState, es: Seq<Entity>) -> GameplayState {
    if s == GameplayState::Won || (has_box(es) && all_boxes_on_spots(es)) {
        GameplayState::Won
    } else {
        GameplayState::Playing
    }
}

/// Once won, always won: no later evaluation leaves the `Won` status.
pub proof fn lemma_won_is_permanent(es: Seq<Entity>)
    ensures
        spec_status_after(GameplayState::Won, es) == GameplayState::Won,
{
}

/// On a table with at least one box, a playing session is won by an
/// evaluation exactly when every box position coincides with some spot
/// position.
pub proof fn lemma_win_iff(es: Seq<Entity>)
    requires
        has_box(es),
    ensures
        spec_status_after(GameplayState::Playing, es) == GameplayState::Won
            <==> all_boxes_on_spots(es),
{
}

/// Evaluation is stable: when nothing moved in between, evaluating a
/// second time leaves exactly the status the first evaluation produced.
pub proof fn lemma_evaluation_idempotent(s: GameplayState, es: Seq<Entity>)
    ensures
        spec_status_after(spec_status_after(s, es), es) == spec_status_after(s, es),
{
}

/// Whether the table holds at least one box entity.
pub fn contains_box(world: &World) -> (r: bool)
    ensures
        r == has_box(world.entities@),
{
    let mut i: usize = 0;
    while i < world.entities.len()
        invariant
            i <= world.entities@.len(),
            forall|k: int| 0 <= k < i ==> !(#[trigger] world.entities@[k]).is_box,
        decreases world.entities@.len() - i,
    {
        if world.entities[i].is_box {
            return true;
        }
        i += 1;
    }
    false
}

/// Whether every box of the table stands on some target spot.
pub fn boxes_all_on_spots(world: &World) -> (r: bool)
    ensures
        r == all_boxes_on_spots(world.entities@),
{
    let mut i: usize = 0;
    while i < world.entities.len()
        invariant
            i <= world.entities@.len(),
            forall|k: int|
                0 <= k < i && (#[trigger] world.entities@[k]).is_box ==> spot_at(
                    world.entities@,
                    world.entities@[k].position.x as int,
                    world.entities@[k].position.y as int,
                ),
        decreases world.entities@.len() - i,
    {
        let e = world.entities[i];
        if e.is_box {
            if !world.has_spot_at(e.position.x, e.position.y) {
                return false;
            }
        }
        i += 1;
    }
    true
}

impl Gameplay {
    /// One evaluation pass, run every tick after the resolver — also on a
    /// blocked move or an empty queue.  The move counter grows by exactly
    /// one for a step or a push and stays put otherwise; the status becomes
    /// `Won` exactly when the session was already won or every box of a
    /// non-empty box set stands on a spot, and the switch is one-way.
    pub fn evaluate(&mut self, outcome: Option<MoveOutcome>, world: &World)
        requires
            counts_as_move(outcome) ==> old(self).moves_count < u32::MAX,
        ensures
            final(self).moves_count == old(self).moves_count + (if counts_as_move(outcome) {
                1int
            } else {
                0int
            }),
            final(self).state == spec_status_after(old(self).state, world.entities@),
    {
        match outcome {
            Some(MoveOutcome::PlayerMoved) => {
                self.moves_count = self.moves_count + 1;
            },
            Some(MoveOutcome::BoxPushed { .. }) => {
                self.moves_count = self.moves_count + 1;
            },
            _ => {},
        }
        let already_won = match self.state {
            GameplayState::Won => true,
            GameplayState::Playing => false,
        };
        if !already_won {
            if contains_box(world) && boxes_all_on_spots(world) {
                self.state = GameplayState::Won;
            }
        }
    }
}

} // verus!
