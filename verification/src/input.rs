//! Translation of raw pointer gestures into queued move intents.  Key
//! presses and swipes alike end up as plain `Direction` values; the core
//! treats every source uniformly.

use vstd::prelude::*;

use crate::components::Direction;
use crate::constants::MINIMUM_SWIPE_DRAG;
use crate::resources::InputQueue;

verus! {

/// The lifecycle stage of a touch gesture as the windowing layer reports
/// it; the core only ever sees the finished drag vector.
#[derive(Clone, Copy, Debug, Hash, PartialEq, Eq)]
pub enum TouchPhase {
    Idle,
    Started,
    Moved,
    Ended,
    Cancelled,
}

/// The intents a finished drag of `(dx, dy)` pixels adds to queue contents
/// `base`: a horizontal intent first when the drag clears the threshold on
/// the x axis, then a vertical one when it clears it on the y axis (`dx`
/// grows to the right, `dy` downward).
pub open spec fn spec_swipe(base: Seq<Direction>, dx: int, dy: int) -> Seq<Direction> {
    let with_h = if dx > MINIMUM_SWIPE_DRAG {
        base.push(Direction::Right)
    } else if dx < -MINIMUM_SWIPE_DRAG {
        base.push(Direction::Left)
    } else {
        base
    };
    if dy > MINIMUM_SWIPE_DRAG {
        with_h.push(Direction::Down)
    } else if dy < -MINIMUM_SWIPE_DRAG {
        with_h.push(Direction::Up)
    } else {
        with_h
    }
}

/// Classifies a finished drag vector and queues the resulting intents:
/// zero, one or two of them, horizontal before vertical.
pub fn swipe_intents(queue: &mut InputQueue, dx: i32, dy: i32)
    ensures
        final(queue).keys_pressed@ == spec_swipe(old(queue).keys_pressed@, dx as int, dy as int),
{
    if dx > MINIMUM_SWIPE_DRAG {
        queue.push(Direction::Right);
    } else if dx < -MINIMUM_SWIPE_DRAG {
        queue.push(Direction::Left);
    }
    if dy > MINIMUM_SWIPE_DRAG {
        queue.push(Direction::Down);
    } else if dy < -MINIMUM_SWIPE_DRAG {
        queue.push(Direction::Up);
    }
}

} // verus!
