//! Fixed layout numbers shared by the builders and the view layer.

use vstd::prelude::*;

verus! {

/// Draw layer of floor tiles, underneath everything else.
pub const FLOOR_Z: u8 = 5;

/// Draw layer of target spots, above the floor and below the movers.
pub const SPOT_Z: u8 = 9;

/// Draw layer of walls.
pub const WALL_Z: u8 = 10;

/// Draw layer of boxes.
pub const BOX_Z: u8 = 10;

/// Draw layer of the player.
pub const PLAYER_Z: u8 = 10;

/// How far a pointer must travel along an axis, in pixels, before the
/// gesture counts as a swipe in that axis.
pub const MINIMUM_SWIPE_DRAG: i32 = 100;

} // verus!
