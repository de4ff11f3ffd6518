//! The entity store: a flat table of entities with their components, the
//! well-formedness invariant of a loaded level, and the lookups the
//! movement resolver and the state evaluator run over the table.

use vstd::prelude::*;
use vstd::pervasive::VecAdditionalExecFns;

use crate::components::{Entity, Position, Renderable};
use crate::constants::{BOX_Z, FLOOR_Z, PLAYER_Z, SPOT_Z, WALL_Z};

verus! {

/// The entity table of one loaded level.  `entities` holds position and
/// tags; `renderables` is the parallel column of visual descriptors, so an
/// entity may or may not carry one (the two columns always have the same
/// length, and the view joins them by index).
pub struct World {
    pub width: u8,
    pub height: u8,
    pub entities: Vec<Entity>,
    pub renderables: Vec<Option<Renderable>>,
}

/// Whether some wall stands on cell `(x, y)`.
pub open spec fn wall_at(es: Seq<Entity>, x: int, y: int) -> bool {
    exists|i: int|
        0 <= i < es.len() && (#[trigger] es[i]).is_wall && es[i].position.x == x
            && es[i].position.y == y
}

/// Whether some box stands on cell `(x, y)`.
pub open spec fn box_at(es: Seq<Entity>, x: int, y: int) -> bool {
    exists|i: int|
        0 <= i < es.len() && (#[trigger] es[i]).is_box && es[i].position.x == x
            && es[i].position.y == y
}

/// Whether some target spot marks cell `(x, y)`.
pub open spec fn spot_at(es: Seq<Entity>, x: int, y: int) -> bool {
    exists|i: int|
        0 <= i < es.len() && (#[trigger] es[i]).is_spot && es[i].position.x == x
            && es[i].position.y == y
}

/// Whether the table holds at least one player entity.
pub open spec fn has_player(es: Seq<Entity>) -> bool {
    exists|i: int| 0 <= i < es.len() && (#[trigger] es[i]).is_player
}

/// Whether the table holds exactly one player entity.
pub open spec fn one_player(es: Seq<Entity>) -> bool {
    has_player(es) && (forall|i: int, j: int|
        #![trigger es[i], es[j]]
        0 <= i < es.len() && 0 <= j < es.len() && es[i].is_player && es[j].is_player ==> i == j)
}

/// The index of the player entity (meaningful when one exists).
pub open spec fn player_index(es: Seq<Entity>) -> int {
    choose|i: int| 0 <= i < es.len() && (#[trigger] es[i]).is_player
}

/// The index of a box standing on cell `(x, y)` (meaningful when one does).
pub open spec fn box_index_at(es: Seq<Entity>, x: int, y: int) -> int {
    choose|i: int|
        0 <= i < es.len() && (#[trigger] es[i]).is_box && es[i].position.x == x
            && es[i].position.y == y
}

/// How many box entities the table holds.
pub open spec fn box_count(es: Seq<Entity>) -> nat
    decreases es.len(),
{
    if es.len() == 0 {
        0
    } else {
        box_count(es.drop_last()) + (if es.last().is_box {
            1nat
        } else {
            0
        })
    }
}

/// Two tables of equal length whose entries agree on the box tag hold the
/// same number of boxes.
pub proof fn lemma_box_count_pointwise(a: Seq<Entity>, b: Seq<Entity>)
    requires
        a.len() == b.len(),
        forall|i: int| 0 <= i < a.len() ==> (#[trigger] a[i]).is_box == b[i].is_box,
    ensures
        box_count(a) == box_count(b),
    decreases a.len(),
{
    if a.len() > 0 {
        assert(forall|i: int|
            0 <= i < a.drop_last().len() ==> (#[trigger] a.drop_last()[i]).is_box
                == b.drop_last()[i].is_box);
        lemma_box_count_pointwise(a.drop_last(), b.drop_last());
    }
}

/// No entity is both the player and a box.
pub open spec fn no_dual_role(es: Seq<Entity>) -> bool {
    forall|i: int| 0 <= i < es.len() ==> !((#[trigger] es[i]).is_player && es[i].is_box)
}

/// No two movable solid entities (the player and the boxes) share a cell.
pub open spec fn solid_cells_disjoint(es: Seq<Entity>) -> bool {
    forall|i: int, j: int|
        #![trigger es[i], es[j]]
        0 <= i < es.len() && 0 <= j < es.len() && i != j && es[i].is_solid_movable()
            && es[j].is_solid_movable() ==> !es[i].same_cell(es[j])
}

/// No wall shares a cell with the player or a box (taking `i == j`
/// into account, this also rules out an entity that is itself both).
pub open spec fn walls_clear(es: Seq<Entity>) -> bool {
    forall|i: int, j: int|
        #![trigger es[i], es[j]]
        0 <= i < es.len() && 0 <= j < es.len() && es[i].is_wall && es[j].is_solid_movable()
            ==> !es[i].same_cell(es[j])
}

/// One ordered pair of the sharing check: no wall under a movable solid,
/// and no two distinct movable solids on one cell.
spec fn pair_ok(es: Seq<Entity>, i: int, j: int) -> bool {
    &&& (es[i].is_wall && es[j].is_solid_movable() ==> !es[i].same_cell(es[j]))
    &&& (i != j && es[i].is_solid_movable() && es[j].is_solid_movable() ==> !es[i].same_cell(
        es[j],
    ))
}

/// Every entity stands inside the map rectangle.
pub open spec fn entities_in_bounds(w: World) -> bool {
    forall|i: int|
        0 <= i < w.entities@.len() ==> (#[trigger] w.entities@[i]).position.x < w.width
            && w.entities@[i].position.y < w.height
}

/// The well-formedness of a loaded level, established by the map loader
/// and preserved by every tick: exactly one player, no player-box dual
/// role, movable solids on pairwise distinct cells, no wall under a solid,
/// every entity inside the map, and the descriptor column as long as the
/// entity column.
pub open spec fn wf(w: World) -> bool {
    &&& one_player(w.entities@)
    &&& no_dual_role(w.entities@)
    &&& solid_cells_disjoint(w.entities@)
    &&& walls_clear(w.entities@)
    &&& entities_in_bounds(w)
    &&& w.renderables@.len() == w.entities@.len()
}

/// The entity a wall builder appends at `(x, y)`.
pub open spec fn spec_wall(x: u8, y: u8) -> Entity {
    Entity {
        position: Position { x, y, z: WALL_Z },
        is_wall: true,
        is_box: false,
        is_spot: false,
        is_player: false,
    }
}

/// The entity a floor builder appends at `(x, y)`: passable, no tag.
pub open spec fn spec_floor(x: u8, y: u8) -> Entity {
    Entity {
        position: Position { x, y, z: FLOOR_Z },
        is_wall: false,
        is_box: false,
        is_spot: false,
        is_player: false,
    }
}

/// The entity a box builder appends at `(x, y)`.
pub open spec fn spec_box(x: u8, y: u8) -> Entity {
    Entity {
        position: Position { x, y, z: BOX_Z },
        is_wall: false,
        is_box: true,
        is_spot: false,
        is_player: false,
    }
}

/// The entity a spot builder appends at `(x, y)`.
pub open spec fn spec_spot(x: u8, y: u8) -> Entity {
    Entity {
        position: Position { x, y, z: SPOT_Z },
        is_wall: false,
        is_box: false,
        is_spot: true,
        is_player: false,
    }
}

/// The entity a player builder appends at `(x, y)`.
pub open spec fn spec_player(x: u8, y: u8) -> Entity {
    Entity {
        position: Position { x, y, z: PLAYER_Z },
        is_wall: false,
        is_box: false,
        is_spot: false,
        is_player: true,
    }
}

impl World {
    /// An empty store for a map of the given dimensions.
    pub fn new(width: u8, height: u8) -> (w: World)
        ensures
            w.width == width,
            w.height == height,
            w.entities@.len() == 0,
            w.renderables@.len() == 0,
    {
        World { width, height, entities: Vec::new(), renderables: Vec::new() }
    }

    /// Appends one entity with no visual descriptor and returns its id.
    fn spawn(&mut self, e: Entity) -> (id: usize)
        ensures
            final(self).entities@ == old(self).entities@.push(e),
            final(self).renderables@ == old(self).renderables@.push(None::<Renderable>),
            final(self).width == old(self).width,
            final(self).height == old(self).height,
            id == old(self).entities@.len(),
    {
        let id = self.entities.len();
        self.entities.push(e);
        self.renderables.push(None);
        id
    }

    /// Appends a wall entity at `(x, y)` and returns its id.
    pub fn add_wall(&mut self, x: u8, y: u8) -> (id: usize)
        ensures
            final(self).entities@ == old(self).entities@.push(spec_wall(x, y)),
            final(self).renderables@ == old(self).renderables@.push(None::<Renderable>),
            final(self).width == old(self).width,
            final(self).height == old(self).height,
            id == old(self).entities@.len(),
    {
        self.spawn(
            Entity {
                position: Position { x, y, z: WALL_Z },
                is_wall: true,
                is_box: false,
                is_spot: false,
                is_player: false,
            },
        )
    }

    /// Appends a floor entity at `(x, y)` and returns its id.
    pub fn add_floor(&mut self, x: u8, y: u8) -> (id: usize)
        ensures
            final(self).entities@ == old(self).entities@.push(spec_floor(x, y)),
            final(self).renderables@ == old(self).renderables@.push(None::<Renderable>),
            final(self).width == old(self).width,
            final(self).height == old(self).height,
            id == old(self).entities@.len(),
    {
        self.spawn(
            Entity {
                position: Position { x, y, z: FLOOR_Z },
                is_wall: false,
                is_box: false,
                is_spot: false,
                is_player: false,
            },
        )
    }

    /// Appends a box entity at `(x, y)` and returns its id.
    pub fn add_box(&mut self, x: u8, y: u8) -> (id: usize)
        ensures
            final(self).entities@ == old(self).entities@.push(spec_box(x, y)),
            final(self).renderables@ == old(self).renderables@.push(None::<Renderable>),
            final(self).width == old(self).width,
            final(self).height == old(self).height,
            id == old(self).entities@.len(),
    {
        self.spawn(
            Entity {
                position: Position { x, y, z: BOX_Z },
                is_wall: false,
                is_box: true,
                is_spot: false,
                is_player: false,
            },
        )
    }

    /// Appends a target-spot entity at `(x, y)` and returns its id.
    pub fn add_spot(&mut self, x: u8, y: u8) -> (id: usize)
        ensures
            final(self).entities@ == old(self).entities@.push(spec_spot(x, y)),
            final(self).renderables@ == old(self).renderables@.push(None::<Renderable>),
            final(self).width == old(self).width,
            final(self).height == old(self).height,
            id == old(self).entities@.len(),
    {
        self.spawn(
            Entity {
                position: Position { x, y, z: SPOT_Z },
                is_wall: false,
                is_box: false,
                is_spot: true,
                is_player: false,
            },
        )
    }

    /// Appends the player entity at `(x, y)` and returns its id.
    pub fn add_player(&mut self, x: u8, y: u8) -> (id: usize)
        ensures
            final(self).entities@ == old(self).entities@.push(spec_player(x, y)),
            final(self).renderables@ == old(self).renderables@.push(None::<Renderable>),
            final(self).width == old(self).width,
            final(self).height == old(self).height,
            id == old(self).entities@.len(),
    {
        self.spawn(
            Entity {
                position: Position { x, y, z: PLAYER_Z },
                is_wall: false,
                is_box: false,
                is_spot: false,
                is_player: true,
            },
        )
    }

    /// Attaches (or replaces) the visual descriptor of entity `id`.
    pub fn attach_renderable(&mut self, id: usize, r: Renderable)
        requires
            id < old(self).renderables@.len(),
        ensures
            final(self).renderables@ == old(self).renderables@.update(id as int, Some(r)),
            final(self).entities@ == old(self).entities@,
            final(self).width == old(self).width,
            final(self).height == old(self).height,
    {
        self.renderables.set(id, Some(r));
    }

    /// Looks up the index of a player entity, if any.
    pub fn find_player(&self) -> (r: Option<usize>)
        ensures
            match r {
                Some(i) => i < self.entities@.len() && self.entities@[i as int].is_player,
                None => !has_player(self.entities@),
            },
    {
        let mut i: usize = 0;
        while i < self.entities.len()
            invariant
                i <= self.entities@.len(),
                forall|k: int| 0 <= k < i ==> !(#[trigger] self.entities@[k]).is_player,
            decreases self.entities@.len() - i,
        {
            if self.entities[i].is_player {
                return Some(i);
            }
            i += 1;
        }
        None
    }

    /// The cell of the player, or `None` on a table with no player.
    pub fn player_position(&self) -> (r: Option<Position>)
        ensures
            r is Some <==> has_player(self.entities@),
            one_player(self.entities@) ==> r == Some(
                self.entities@[player_index(self.entities@)].position,
            ),
    {
        match self.find_player() {
            Some(i) => {
                proof {
                    if one_player(self.entities@) {
                        assert(self.entities@[player_index(self.entities@)].is_player);
                    }
                }
                Some(self.entities[i].position)
            },
            None => None,
        }
    }

    /// Whether a wall stands on cell `(x, y)`.
    pub fn has_wall_at(&self, x: u8, y: u8) -> (r: bool)
        ensures
            r == wall_at(self.entities@, x as int, y as int),
    {
        let mut i: usize = 0;
        while i < self.entities.len()
            invariant
                i <= self.entities@.len(),
                forall|k: int|
                    0 <= k < i ==> !((#[trigger] self.entities@[k]).is_wall
                        && self.entities@[k].position.x == x && self.entities@[k].position.y == y),
            decreases self.entities@.len() - i,
        {
            let e = self.entities[i];
            if e.is_wall && e.position.x == x && e.position.y == y {
                return true;
            }
            i += 1;
        }
        false
    }

    /// Whether a target spot marks cell `(x, y)`.
    pub fn has_spot_at(&self, x: u8, y: u8) -> (r: bool)
        ensures
            r == spot_at(self.entities@, x as int, y as int),
    {
        let mut i: usize = 0;
        while i < self.entities.len()
            invariant
                i <= self.entities@.len(),
                forall|k: int|
                    0 <= k < i ==> !((#[trigger] self.entities@[k]).is_spot
                        && self.entities@[k].position.x == x && self.entities@[k].position.y == y),
            decreases self.entities@.len() - i,
        {
            let e = self.entities[i];
            if e.is_spot && e.position.x == x && e.position.y == y {
                return true;
            }
            i += 1;
        }
        false
    }

    /// Looks up the index of a box standing on cell `(x, y)`, if any.
    pub fn find_box_at(&self, x: u8, y: u8) -> (r: Option<usize>)
        ensures
            match r {
                Some(i) => i < self.entities@.len() && self.entities@[i as int].is_box
                    && self.entities@[i as int].position.x == x && self.entities@[
                    i as int
                ].position.y == y,
                None => !box_at(self.entities@, x as int, y as int),
            },
    {
        let mut i: usize = 0;
        while i < self.entities.len()
            invariant
                i <= self.entities@.len(),
                forall|k: int|
                    0 <= k < i ==> !((#[trigger] self.entities@[k]).is_box
                        && self.entities@[k].position.x == x && self.entities@[k].position.y == y),
            decreases self.entities@.len() - i,
        {
            let e = self.entities[i];
            if e.is_box && e.position.x == x && e.position.y == y {
                return Some(i);
            }
            i += 1;
        }
        None
    }

    /// Whether the table holds exactly one player entity.
    fn one_player_check(&self) -> (r: bool)
        ensures
            r == one_player(self.entities@),
    {
        let mut found: Option<usize> = None;
        let mut i: usize = 0;
        while i < self.entities.len()
            invariant
                i <= self.entities@.len(),
                match found {
                    Some(p) => p < i && self.entities@[p as int].is_player && (forall|k: int|
                        0 <= k < i && k != p ==> !(#[trigger] self.entities@[k]).is_player),
                    None => forall|k: int|
                        0 <= k < i ==> !(#[trigger] self.entities@[k]).is_player,
                },
            decreases self.entities@.len() - i,
        {
            if self.entities[i].is_player {
                match found {
                    Some(p) => {
                        proof {
                            assert(self.entities@[p as int].is_player
                                && self.entities@[i as int].is_player && p as int != i as int);
                            assert(!one_player(self.entities@));
                        }
                        return false;
                    },
                    None => {
                        found = Some(i);
                    },
                }
            }
            i += 1;
        }
        match found {
            Some(p) => {
                proof {
                    assert(has_player(self.entities@));
                    assert forall|a: int, b: int|
                        #![trigger self.entities@[a], self.entities@[b]]
                        0 <= a < self.entities@.len() && 0 <= b < self.entities@.len()
                            && self.entities@[a].is_player && self.entities@[b].is_player
                        implies a == b by {
                        assert(a == p as int && b == p as int);
                    }
                }
                true
            },
            None => {
                proof {
                    assert(!has_player(self.entities@));
                }
                false
            },
        }
    }

    /// Whether every entity lies inside the map and none is both the
    /// player and a box.
    fn bounds_and_roles_check(&self) -> (r: bool)
        ensures
            r == (entities_in_bounds(*self) && no_dual_role(self.entities@)),
    {
        let mut i: usize = 0;
        while i < self.entities.len()
            invariant
                i <= self.entities@.len(),
                forall|k: int|
                    0 <= k < i ==> (#[trigger] self.entities@[k]).position.x < self.width
                        && self.entities@[k].position.y < self.height && !(self.entities@[
                        k
                    ].is_player && self.entities@[k].is_box),
            decreases self.entities@.len() - i,
        {
            let e = self.entities[i];
            if e.position.x >= self.width || e.position.y >= self.height {
                return false;
            }
            if e.is_player && e.is_box {
                return false;
            }
            i += 1;
        }
        true
    }

    /// Whether cell sharing respects solidity: no wall under the player or
    /// a box, and no two movable solids on one cell.
    fn pairs_check(&self) -> (r: bool)
        ensures
            r == (solid_cells_disjoint(self.entities@) && walls_clear(self.entities@)),
    {
        let n = self.entities.len();
        let mut i: usize = 0;
        while i < n
            invariant
                i <= n,
                n == self.entities@.len(),
                forall|a: int, b: int|
                    0 <= a < i && 0 <= b < n ==> #[trigger] pair_ok(self.entities@, a, b),
            decreases n - i,
        {
            let mut j: usize = 0;
            while j < n
                invariant
                    i < n,
                    j <= n,
                    n == self.entities@.len(),
                    forall|a: int, b: int|
                        0 <= a < i && 0 <= b < n ==> #[trigger] pair_ok(self.entities@, a, b),
                    forall|b: int| 0 <= b < j ==> #[trigger] pair_ok(self.entities@, i as int, b),
                decreases n - j,
            {
                let a = self.entities[i];
                let b = self.entities[j];
                if a.position.x == b.position.x && a.position.y == b.position.y {
                    if a.is_wall && (b.is_box || b.is_player) {
                        proof {
                            assert(!walls_clear(self.entities@)) by {
                                if walls_clear(self.entities@) {
                                    assert(!self.entities@[i as int].same_cell(
                                        self.entities@[j as int],
                                    ));
                                }
                            }
                        }
                        return false;
                    }
                    if i != j && (a.is_box || a.is_player) && (b.is_box || b.is_player) {
                        proof {
                            assert(!solid_cells_disjoint(self.entities@)) by {
                                if solid_cells_disjoint(self.entities@) {
                                    assert(!self.entities@[i as int].same_cell(
                                        self.entities@[j as int],
                                    ));
                                }
                            }
                        }
                        return false;
                    }
                }
                j += 1;
            }
            i += 1;
        }
        proof {
            assert forall|a: int, b: int|
                #![trigger self.entities@[a], self.entities@[b]]
                0 <= a < self.entities@.len() && 0 <= b < self.entities@.len()
                implies pair_ok(self.entities@, a, b) by {
                assert(pair_ok(self.entities@, a, b));
            }
        }
        true
    }

    /// Whether the whole store is well formed; the map loader's output is
    /// held to this before the first tick — a level that fails it is
    /// rejected at load time, never repaired mid-play.
    pub fn is_well_formed(&self) -> (r: bool)
        ensures
            r == wf(*self),
    {
        let c1 = self.one_player_check();
        let c2 = self.bounds_and_roles_check();
        let c3 = self.pairs_check();
        let c4 = self.renderables.len() == self.entities.len();
        c1 && c2 && c3 && c4
    }

    /// Counts the box entities of the table.
    pub fn count_boxes(&self) -> (r: usize)
        ensures
            r == box_count(self.entities@),
    {
        let mut i: usize = 0;
        let mut n: usize = 0;
        while i < self.entities.len()
            invariant
                i <= self.entities@.len(),
                n == box_count(self.entities@.subrange(0, i as int)),
                n <= i,
            decreases self.entities@.len() - i,
        {
            proof {
                assert(self.entities@.subrange(0, i + 1).drop_last() =~= self.entities@.subrange(
                    0,
                    i as int,
                ));
                assert(self.entities@.subrange(0, i + 1).last() == self.entities@[i as int]);
            }
            if self.entities[i].is_box {
                n += 1;
            }
            i += 1;
        }
        proof {
            assert(self.entities@.subrange(0, self.entities@.len() as int) =~= self.entities@);
        }
        n
    }
}

} // verus!
