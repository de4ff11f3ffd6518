//! The shared simulation records: the queue of pending move intents and the
//! gameplay record holding the status label and the move counter.

use vstd::prelude::*;

use crate::components::Direction;

verus! {

/// The ordered buffer of move intents awaiting resolution.  Producers push
/// at the back; the tick driver drains exactly one intent from the front
/// per tick, so rapid inputs are serialized, never conflated, and a blocked
/// move does not discard the intents queued after it.
pub struct InputQueue {
    pub keys_pressed: Vec<Direction>,
}

impl InputQueue {
    /// An empty queue.
    pub fn new() -> (q: InputQueue)
        ensures
            q.keys_pressed@.len() == 0,
    {
        InputQueue { keys_pressed: Vec::new() }
    }

    /// Appends one intent at the back of the queue.
    pub fn push(&mut self, intent: Direction)
        ensures
            final(self).keys_pressed@ == old(self).keys_pressed@.push(intent),
    {
        self.keys_pressed.push(intent);
    }

    /// Removes and returns the oldest pending intent, or `None` when the
    /// queue is empty.
    pub fn drain_one(&mut self) -> (r: Option<Direction>)
        ensures
            old(self).keys_pressed@.len() == 0 ==> r is None && final(self).keys_pressed@
                == old(self).keys_pressed@,
            old(self).keys_pressed@.len() > 0 ==> r == Some(old(self).keys_pressed@[0])
                && final(self).keys_pressed@ == old(self).keys_pressed@.subrange(
                1,
                old(self).keys_pressed@.len() as int,
            ),
    {
        if self.keys_pressed.len() == 0 {
            None
        } else {
            let intent = self.keys_pressed.remove(0);
            proof {
                assert(self.keys_pressed@ =~= old(self).keys_pressed@.subrange(
                    1,
                    old(self).keys_pressed@.len() as int,
                ));
            }
            Some(intent)
        }
    }
}

/// The status label of a session: a puzzle starts `Playing` and switches to
/// `Won` once every box rests on a target spot; the switch is one-way.
#[derive(Clone, Copy, Debug, PartialEq, Eq, Structural)]
pub enum GameplayState {
    Playing,
    Won,
}

/// The gameplay record: written only by the state evaluator, read by the
/// view layer.
pub struct Gameplay {
    pub state: GameplayState,
    pub moves_count: u32,
}

impl Gameplay {
    /// A fresh record: still playing, no move made yet.
    pub fn new() -> (g: Gameplay)
        ensures
            g.state == GameplayState::Playing,
            g.moves_count == 0,
    {
        Gameplay { state: GameplayState::Playing, moves_count: 0 }
    }
}

} // verus!
