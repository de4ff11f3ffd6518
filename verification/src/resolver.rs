//! The movement resolver: applies one move intent to the entity table.
//!
//! The player's target cell is the neighbour cell in the intent direction.
//! A wall (or the map edge) there rejects the move; an empty cell lets the
//! player step in; a box there is pushed one cell further, but only when
//! the cell beyond it is free — a single box per push, never a chain.

use vstd::prelude::*;
use vstd::pervasive::VecAdditionalExecFns;

use crate::components::{Direction, Entity, Position};
use crate::world::{
    box_at, box_count, box_index_at, has_player, lemma_box_count_pointwise, no_dual_role,
    one_player, player_index, solid_cells_disjoint, spot_at, wall_at, walls_clear, wf, World,
};

verus! {

/// The classified result of resolving one intent.
#[derive(Clone, Copy, Debug, PartialEq, Eq, Structural)]
pub enum MoveOutcome {
    /// The move was rejected; nothing changed.
    Blocked,
    /// The player stepped onto a free cell.
    PlayerMoved,
    /// The player stepped forward and pushed a box one cell further.
    /// `on_spot` tells whether the box landed on a target spot, and
    /// `left_spot` whether it left a spot it had occupied — detail the
    /// event layer turns into sound cues.
    BoxPushed { on_spot: bool, left_spot: bool },
}

/// Horizontal displacement of one step in direction `d`.
pub open spec fn step_dx(d: Direction) -> int {
    match d {
        Direction::Left => -1,
        Direction::Right => 1,
        _ => 0,
    }
}

/// Vertical displacement of one step in direction `d` (`y` grows downward).
pub open spec fn step_dy(d: Direction) -> int {
    match d {
        Direction::Up => -1,
        Direction::Down => 1,
        _ => 0,
    }
}

/// Whether `(x, y)` lies inside the map rectangle of `w`.
pub open spec fn in_bounds(w: World, x: int, y: int) -> bool {
    0 <= x < w.width && 0 <= y < w.height
}

/// Entity `e` carried to cell `(x, y)`, keeping its tags and draw layer.
pub open spec fn moved_to(e: Entity, x: int, y: int) -> Entity {
    Entity {
        position: Position { x: x as u8, y: y as u8, z: e.position.z },
        is_wall: e.is_wall,
        is_box: e.is_box,
        is_spot: e.is_spot,
        is_player: e.is_player,
    }
}

/// Whether `a` and `b` agree on every component except the grid cell.
pub open spec fn tags_match(a: Entity, b: Entity) -> bool {
    a.is_wall == b.is_wall && a.is_box == b.is_box && a.is_spot == b.is_spot && a.is_player
        == b.is_player && a.position.z == b.position.z
}

/// The outcome of resolving intent `d` on world `w` (meaningful when `w`
/// holds exactly one player).
pub open spec fn spec_outcome(w: World, d: Direction) -> MoveOutcome {
    let es = w.entities@;
    let p = es[player_index(es)].position;
    let tx = p.x + step_dx(d);
    let ty = p.y + step_dy(d);
    let bx = tx + step_dx(d);
    let by = ty + step_dy(d);
    if !in_bounds(w, tx, ty) || wall_at(es, tx, ty) {
        MoveOutcome::Blocked
    } else if !box_at(es, tx, ty) {
        MoveOutcome::PlayerMoved
    } else if !in_bounds(w, bx, by) || wall_at(es, bx, by) || box_at(es, bx, by) {
        MoveOutcome::Blocked
    } else {
        MoveOutcome::BoxPushed {
            on_spot: spot_at(es, bx, by),
            left_spot: spot_at(es, tx, ty),
        }
    }
}

/// The entity table after resolving intent `d` on world `w`: unchanged on a
/// blocked move, the player carried one step on a plain move, and both the
/// pushed box and the player carried one step on a push.
pub open spec fn spec_next(w: World, d: Direction) -> Seq<Entity> {
    let es = w.entities@;
    let pi = player_index(es);
    let p = es[pi].position;
    let tx = p.x + step_dx(d);
    let ty = p.y + step_dy(d);
    let bx = tx + step_dx(d);
    let by = ty + step_dy(d);
    if !in_bounds(w, tx, ty) || wall_at(es, tx, ty) {
        es
    } else if !box_at(es, tx, ty) {
        es.update(pi, moved_to(es[pi], tx, ty))
    } else if !in_bounds(w, bx, by) || wall_at(es, bx, by) || box_at(es, bx, by) {
        es
    } else {
        let bi = box_index_at(es, tx, ty);
        es.update(bi, moved_to(es[bi], bx, by)).update(pi, moved_to(es[pi], tx, ty))
    }
}

/// In a table with exactly one player, any player entity found at index `i`
/// is the player the model speaks of.
pub proof fn lemma_player_index_unique(es: Seq<Entity>, i: int)
    requires
        one_player(es),
        0 <= i < es.len(),
        es[i].is_player,
    ensures
        player_index(es) == i,
{
    assert(has_player(es));
    assert(es[player_index(es)].is_player);
}

/// When no two solids share a cell, any box found on `(x, y)` at index `i`
/// is the box the model speaks of.
pub proof fn lemma_box_index_at_unique(es: Seq<Entity>, x: int, y: int, i: int)
    requires
        solid_cells_disjoint(es),
        0 <= i < es.len(),
        es[i].is_box,
        es[i].position.x == x,
        es[i].position.y == y,
    ensures
        box_index_at(es, x, y) == i,
{
    assert(box_at(es, x, y));
    let j = box_index_at(es, x, y);
    assert(0 <= j < es.len() && es[j].is_box && es[j].position.x == x && es[j].position.y == y);
}

/// Resolving an intent preserves every structural invariant of the table:
/// the length, every tag and draw layer, the single player, the pairwise
/// distinct cells of the movable solids, the wall-free cells under them,
/// and the map bounds.
pub proof fn lemma_next_wf(w: World, d: Direction, ns: Seq<Entity>)
    requires
        wf(w),
        ns == spec_next(w, d),
    ensures
        ns.len() == w.entities@.len(),
        forall|i: int| 0 <= i < ns.len() ==> tags_match(#[trigger] ns[i], w.entities@[i]),
        one_player(ns),
        no_dual_role(ns),
        solid_cells_disjoint(ns),
        walls_clear(ns),
        forall|i: int|
            0 <= i < ns.len() ==> (#[trigger] ns[i]).position.x < w.width
                && ns[i].position.y < w.height,
{
    let es = w.entities@;
    let pi = player_index(es);
    assert(has_player(es));
    assert(0 <= pi < es.len() && es[pi].is_player);
    assert(!es[pi].is_wall) by {
        if es[pi].is_wall {
            assert(es[pi].same_cell(es[pi]));
        }
    }
    let p = es[pi].position;
    let tx = p.x + step_dx(d);
    let ty = p.y + step_dy(d);
    let bx = tx + step_dx(d);
    let by = ty + step_dy(d);
    assert(step_dx(d) != 0 || step_dy(d) != 0);
    if !in_bounds(w, tx, ty) || wall_at(es, tx, ty) {
        assert(ns == es);
    } else if !box_at(es, tx, ty) {
        let mp = moved_to(es[pi], tx, ty);
        assert(ns == es.update(pi, mp));
        assert(mp.position.x == tx && mp.position.y == ty);
        assert(ns[pi].is_player);
        assert(has_player(ns));
        assert forall|i: int, j: int|
            #![trigger ns[i], ns[j]]
            0 <= i < ns.len() && 0 <= j < ns.len() && ns[i].is_player && ns[j].is_player
                implies i == j by {
            assert(es[i].is_player && es[j].is_player);
        }
        assert forall|i: int, j: int|
            #![trigger ns[i], ns[j]]
            0 <= i < ns.len() && 0 <= j < ns.len() && i != j && ns[i].is_solid_movable()
                && ns[j].is_solid_movable() implies !ns[i].same_cell(ns[j]) by {
            if i == pi {
                assert(es[j].is_solid_movable());
                assert(es[j].is_box);
                if ns[i].same_cell(ns[j]) {
                    assert(box_at(es, tx, ty));
                }
            } else if j == pi {
                assert(es[i].is_box);
                if ns[i].same_cell(ns[j]) {
                    assert(box_at(es, tx, ty));
                }
            } else {
                assert(!es[i].same_cell(es[j]));
            }
        }
        assert forall|i: int, j: int|
            #![trigger ns[i], ns[j]]
            0 <= i < ns.len() && 0 <= j < ns.len() && ns[i].is_wall && ns[j].is_solid_movable()
                implies !ns[i].same_cell(ns[j]) by {
            assert(i != pi);
            if j == pi {
                if ns[i].same_cell(ns[j]) {
                    assert(wall_at(es, tx, ty));
                }
            } else {
                assert(!es[i].same_cell(es[j]));
            }
        }
    } else if !in_bounds(w, bx, by) || wall_at(es, bx, by) || box_at(es, bx, by) {
        assert(ns == es);
    } else {
        let bi = box_index_at(es, tx, ty);
        assert(box_at(es, tx, ty));
        assert(0 <= bi < es.len() && es[bi].is_box && es[bi].position.x == tx
            && es[bi].position.y == ty);
        assert(bi != pi);
        let mb = moved_to(es[bi], bx, by);
        let mp = moved_to(es[pi], tx, ty);
        assert(ns == es.update(bi, mb).update(pi, mp));
        assert(mp.position.x == tx && mp.position.y == ty);
        assert(mb.position.x == bx && mb.position.y == by);
        assert(ns[pi].is_player);
        assert(has_player(ns));
        assert forall|i: int, j: int|
            #![trigger ns[i], ns[j]]
            0 <= i < ns.len() && 0 <= j < ns.len() && ns[i].is_player && ns[j].is_player
                implies i == j by {
            assert(es[i].is_player && es[j].is_player);
        }
        assert forall|i: int, j: int|
            #![trigger ns[i], ns[j]]
            0 <= i < ns.len() && 0 <= j < ns.len() && i != j && ns[i].is_solid_movable()
                && ns[j].is_solid_movable() implies !ns[i].same_cell(ns[j]) by {
            if i == pi && j == bi {
                assert(tx != bx || ty != by);
            } else if i == bi && j == pi {
                assert(tx != bx || ty != by);
            } else if i == pi {
                assert(es[j].is_box);
                if ns[i].same_cell(ns[j]) {
                    assert(!es[j].same_cell(es[bi]));
                }
            } else if j == pi {
                assert(es[i].is_box);
                if ns[i].same_cell(ns[j]) {
                    assert(!es[i].same_cell(es[bi]));
                }
            } else if i == bi {
                assert(es[j].is_solid_movable());
                if ns[i].same_cell(ns[j]) {
                    if es[j].is_box {
                        assert(box_at(es, bx, by));
                    } else {
                        assert(j == pi);
                    }
                }
            } else if j == bi {
                assert(es[i].is_solid_movable());
                if ns[i].same_cell(ns[j]) {
                    if es[i].is_box {
                        assert(box_at(es, bx, by));
                    } else {
                        assert(i == pi);
                    }
                }
            } else {
                assert(!es[i].same_cell(es[j]));
            }
        }
        assert forall|i: int, j: int|
            #![trigger ns[i], ns[j]]
            0 <= i < ns.len() && 0 <= j < ns.len() && ns[i].is_wall && ns[j].is_solid_movable()
                implies !ns[i].same_cell(ns[j]) by {
            assert(i != pi);
            assert(!es[bi].is_wall) by {
                if es[bi].is_wall {
                    assert(es[bi].same_cell(es[bi]));
                }
            }
            assert(i != bi);
            if j == pi {
                if ns[i].same_cell(ns[j]) {
                    assert(wall_at(es, tx, ty));
                }
            } else if j == bi {
                if ns[i].same_cell(ns[j]) {
                    assert(wall_at(es, bx, by));
                }
            } else {
                assert(!es[i].same_cell(es[j]));
            }
        }
    }
}

/// Box conservation: resolving an intent never creates or destroys a box.
pub proof fn lemma_box_conservation(w: World, d: Direction)
    requires
        wf(w),
    ensures
        box_count(spec_next(w, d)) == box_count(w.entities@),
{
    lemma_next_wf(w, d, spec_next(w, d));
    lemma_box_count_pointwise(spec_next(w, d), w.entities@);
}

/// A move whose target cell holds a wall is rejected: the outcome is
/// `Blocked` and no entity — the player included — moves.
pub proof fn lemma_wall_blocks(w: World, d: Direction)
    requires
        wf(w),
        wall_at(
            w.entities@,
            w.entities@[player_index(w.entities@)].position.x + step_dx(d),
            w.entities@[player_index(w.entities@)].position.y + step_dy(d),
        ),
    ensures
        spec_outcome(w, d) == MoveOutcome::Blocked,
        spec_next(w, d) == w.entities@,
{
}

/// Pushing a box into a wall or into another box never happens: after any
/// resolved intent, no two movable solid entities share a cell.
pub proof fn lemma_no_solid_overlap(w: World, d: Direction)
    requires
        wf(w),
    ensures
        solid_cells_disjoint(spec_next(w, d)),
{
    lemma_next_wf(w, d, spec_next(w, d));
}

/// The unit step of the given direction, as machine integers.
fn step_delta(d: Direction) -> (r: (i32, i32))
    ensures
        r.0 == step_dx(d),
        r.1 == step_dy(d),
{
    match d {
        Direction::Up => (0, -1),
        Direction::Down => (0, 1),
        Direction::Left => (-1, 0),
        Direction::Right => (1, 0),
    }
}

/// Applies one move intent to the table and reports what happened.
///
/// The table must be well formed (in particular it holds exactly one
/// player); it stays well formed, the outcome and the new table are exactly
/// the ones the specification model computes, and no box is created or
/// destroyed.
pub fn resolve(world: &mut World, intent: Direction) -> (outcome: MoveOutcome)
    requires
        wf(*old(world)),
    ensures
        wf(*final(world)),
        outcome == spec_outcome(*old(world), intent),
        final(world).entities@ == spec_next(*old(world), intent),
        final(world).width == old(world).width,
        final(world).height == old(world).height,
        final(world).renderables@ == old(world).renderables@,
        box_count(final(world).entities@) == box_count(old(world).entities@),
        outcome == MoveOutcome::Blocked ==> final(world).entities@ == old(world).entities@,
{
    let ghost es = world.entities@;
    let (dx, dy) = step_delta(intent);
    let pi = match world.find_player() {
        Some(i) => i,
        None => {
            proof {
                assert(false);
            }
            0
        },
    };
    proof {
        lemma_player_index_unique(es, pi as int);
    }
    let p = world.entities[pi].position;
    let tx_w: i32 = p.x as i32 + dx;
    let ty_w: i32 = p.y as i32 + dy;
    if tx_w < 0 || ty_w < 0 || tx_w >= world.width as i32 || ty_w >= world.height as i32 {
        return MoveOutcome::Blocked;
    }
    let tx: u8 = tx_w as u8;
    let ty: u8 = ty_w as u8;
    if world.has_wall_at(tx, ty) {
        return MoveOutcome::Blocked;
    }
    match world.find_box_at(tx, ty) {
        None => {
            let pl = world.entities[pi];
            let moved = Entity {
                position: Position { x: tx, y: ty, z: pl.position.z },
                is_wall: pl.is_wall,
                is_box: pl.is_box,
                is_spot: pl.is_spot,
                is_player: pl.is_player,
            };
            world.entities.set(pi, moved);
            proof {
                assert(moved == moved_to(es[pi as int], tx as int, ty as int));
                assert(world.entities@ == spec_next(*old(world), intent));
                lemma_next_wf(*old(world), intent, world.entities@);
                lemma_box_count_pointwise(world.entities@, es);
            }
            MoveOutcome::PlayerMoved
        },
        Some(bi) => {
            proof {
                lemma_box_index_at_unique(es, tx as int, ty as int, bi as int);
            }
            let bx_w: i32 = tx as i32 + dx;
            let by_w: i32 = ty as i32 + dy;
            if bx_w < 0 || by_w < 0 || bx_w >= world.width as i32 || by_w >= world.height as i32 {
                return MoveOutcome::Blocked;
            }
            let bx: u8 = bx_w as u8;
            let by: u8 = by_w as u8;
            if world.has_wall_at(bx, by) {
                return MoveOutcome::Blocked;
            }
            match world.find_box_at(bx, by) {
                Some(_other) => {
                    proof {
                        assert(box_at(es, bx as int, by as int));
                    }
                    return MoveOutcome::Blocked;
                },
                None => {},
            }
            let on_spot = world.has_spot_at(bx, by);
            let left_spot = world.has_spot_at(tx, ty);
            let bo = world.entities[bi];
            let moved_box = Entity {
                position: Position { x: bx, y: by, z: bo.position.z },
                is_wall: bo.is_wall,
                is_box: bo.is_box,
                is_spot: bo.is_spot,
                is_player: bo.is_player,
            };
            let pl = world.entities[pi];
            let moved_player = Entity {
                position: Position { x: tx, y: ty, z: pl.position.z },
                is_wall: pl.is_wall,
                is_box: pl.is_box,
                is_spot: pl.is_spot,
                is_player: pl.is_player,
            };
            proof {
                assert(bi != pi);
            }
            world.entities.set(bi, moved_box);
            world.entities.set(pi, moved_player);
            proof {
                assert(moved_box == moved_to(es[bi as int], bx as int, by as int));
                assert(moved_player == moved_to(es[pi as int], tx as int, ty as int));
                assert(world.entities@ == spec_next(*old(world), intent));
                lemma_next_wf(*old(world), intent, world.entities@);
                lemma_box_count_pointwise(world.entities@, es);
            }
            MoveOutcome::BoxPushed { on_spot, left_spot }
        },
    }
}

} // verus!
