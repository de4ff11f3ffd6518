//! The component data attached to game entities: grid positions, the four
//! move directions, the tag set that classifies an entity, and the visual
//! descriptor the view layer reads.

use vstd::prelude::*;

verus! {

/// One of the four discrete move intents a player may queue.
#[derive(Clone, Copy, Debug, PartialEq, Eq, Structural)]
pub enum Direction {
    Up,
    Down,
    Left,
    Right,
}

/// A cell on the grid: `x` grows to the right, `y` grows downward.  The `z`
/// coordinate is a draw layer read only by the view; the resolver ignores it.
#[derive(Clone, Copy, Debug, PartialEq, Eq, Structural)]
pub struct Position {
    pub x: u8,
    pub y: u8,
    pub z: u8,
}

/// One entry of the entity table: a position plus a sparse set of tags.
/// A plain floor tile carries no tag at all; a box standing on a target spot
/// is not a tag of its own but the positional coincidence of a `is_box`
/// entity with a `is_spot` entity, recomputed whenever it is needed.
#[derive(Clone, Copy, Debug, PartialEq, Eq, Structural)]
pub struct Entity {
    pub position: Position,
    pub is_wall: bool,
    pub is_box: bool,
    pub is_spot: bool,
    pub is_player: bool,
}

impl Entity {
    /// Whether this entity is movable and solid: the player and the boxes
    /// are; walls are solid but immovable; spots and floors are passable.
    pub open spec fn is_solid_movable(self) -> bool {
        self.is_box || self.is_player
    }

    /// Whether two entities stand on the same grid cell (the draw layer
    /// does not count).
    pub open spec fn same_cell(self, other: Entity) -> bool {
        self.position.x == other.position.x && self.position.y == other.position.y
    }
}

/// How a visual descriptor animates.
#[derive(Clone, Copy, Debug, PartialEq, Eq, Structural)]
pub enum RenderableKind {
    /// A single image.
    Static,
    /// A cycle of images, one of which is picked from the elapsed time.
    Animated,
}

/// The visual descriptor component: the asset paths of the frames that can
/// depict the entity.  A static descriptor holds exactly one path.
#[derive(Debug)]
pub struct Renderable {
    pub paths: Vec<String>,
}

/// The frame slot selected from the elapsed time: the millisecond count is
/// folded into one second and split into four quarter-second slots.
pub open spec fn spec_frame_index(delta_millis: u64) -> int {
    (delta_millis % 1000) as int / 250
}

/// Picks the animation frame slot for the given elapsed time.
pub fn frame_index(delta_millis: u64) -> (r: usize)
    ensures
        r == spec_frame_index(delta_millis),
        r < 4,
{
    ((delta_millis % 1000) / 250) as usize
}

impl Renderable {
    /// A descriptor that always shows the one given image.
    pub fn new_static(path: String) -> (r: Renderable)
        ensures
            r.paths@ == seq![path],
    {
        Renderable { paths: vec![path] }
    }

    /// A descriptor that cycles through the given images.
    pub fn new_animated(paths: Vec<String>) -> (r: Renderable)
        requires
            paths@.len() > 0,
        ensures
            r.paths@ == paths@,
    {
        Renderable { paths }
    }

    /// How this descriptor animates, derived from the number of frames.
    pub fn kind(&self) -> (k: RenderableKind)
        requires
            self.paths@.len() > 0,
        ensures
            k == (if self.paths@.len() == 1 {
                RenderableKind::Static
            } else {
                RenderableKind::Animated
            }),
    {
        if self.paths.len() == 1 {
            RenderableKind::Static
        } else {
            RenderableKind::Animated
        }
    }

    /// The frame at the given slot; slots beyond the end wrap around.
    pub fn path(&self, index: usize) -> (r: &String)
        requires
            self.paths@.len() > 0,
        ensures
            *r == self.paths@[index as int % self.paths@.len() as int],
    {
        &self.paths[index % self.paths.len()]
    }

    /// The image to draw after `delta_millis` of elapsed time: a static
    /// descriptor always yields its single image, an animated one the
    /// quarter-second frame slot, wrapped into the available frames.
    pub fn image_path(&self, delta_millis: u64) -> (r: &String)
        requires
            self.paths@.len() > 0,
        ensures
            *r == self.paths@[spec_image_index(self.paths@.len() as int, delta_millis)],
    {
        let slot: usize = match self.kind() {
            RenderableKind::Static => 0,
            RenderableKind::Animated => frame_index(delta_millis),
        };
        self.path(slot)
    }
}

/// The index of the frame that `Renderable::image_path` selects out of
/// `count` frames after `delta_millis` of elapsed time.
pub open spec fn spec_image_index(count: int, delta_millis: u64) -> int
    recommends
        count > 0,
{
    if count == 1 {
        0
    } else {
        spec_frame_index(delta_millis) % count
    }
}

} // verus!
