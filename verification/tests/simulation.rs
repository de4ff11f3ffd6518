//! End-to-end checks of the simulation core: movement legality, push
//! resolution, win evaluation, move counting and tick sequencing.

use sokoban::components::Direction;
use sokoban::events::SoundCue;
use sokoban::resolver::{resolve, MoveOutcome};
use sokoban::resources::{Gameplay, GameplayState, InputQueue};
use sokoban::tick::tick;
use sokoban::world::World;

fn player_xy(w: &World) -> (u8, u8) {
    let p = w.player_position().expect("world should hold a player");
    (p.x, p.y)
}

fn box_cells(w: &World) -> Vec<(u8, u8)> {
    w.entities
        .iter()
        .filter(|e| e.is_box)
        .map(|e| (e.position.x, e.position.y))
        .collect()
}

fn solid_cells(w: &World) -> Vec<(u8, u8)> {
    w.entities
        .iter()
        .filter(|e| e.is_box || e.is_player)
        .map(|e| (e.position.x, e.position.y))
        .collect()
}

#[test]
fn wall_target_blocks_and_leaves_player_in_place() {
    let mut w = World::new(8, 8);
    w.add_player(2, 2);
    w.add_wall(2, 1);
    assert!(w.is_well_formed());
    let outcome = resolve(&mut w, Direction::Up);
    assert_eq!(outcome, MoveOutcome::Blocked);
    assert_eq!(player_xy(&w), (2, 2));
}

#[test]
fn free_cell_lets_player_step() {
    let mut w = World::new(8, 8);
    w.add_player(2, 2);
    assert!(w.is_well_formed());
    assert_eq!(resolve(&mut w, Direction::Right), MoveOutcome::PlayerMoved);
    assert_eq!(player_xy(&w), (3, 2));
    assert_eq!(resolve(&mut w, Direction::Down), MoveOutcome::PlayerMoved);
    assert_eq!(player_xy(&w), (3, 3));
    assert_eq!(resolve(&mut w, Direction::Left), MoveOutcome::PlayerMoved);
    assert_eq!(player_xy(&w), (2, 3));
    assert_eq!(resolve(&mut w, Direction::Up), MoveOutcome::PlayerMoved);
    assert_eq!(player_xy(&w), (2, 2));
}

#[test]
fn map_edge_blocks_like_a_wall() {
    let mut w = World::new(3, 3);
    w.add_player(0, 0);
    assert!(w.is_well_formed());
    assert_eq!(resolve(&mut w, Direction::Up), MoveOutcome::Blocked);
    assert_eq!(resolve(&mut w, Direction::Left), MoveOutcome::Blocked);
    assert_eq!(player_xy(&w), (0, 0));
}

#[test]
fn push_into_wall_is_blocked() {
    // An 8-by-9 map: the player at (4,4), a box at (4,3) right under a
    // wall at (4,2); pushing up must change nothing.
    let mut w = World::new(8, 9);
    w.add_player(4, 4);
    w.add_box(4, 3);
    w.add_wall(4, 2);
    assert!(w.is_well_formed());
    let mut q = InputQueue::new();
    let mut g = Gameplay::new();
    q.push(Direction::Up);
    let cue = tick(&mut w, &mut q, &mut g);
    assert_eq!(cue, Some(SoundCue::Incorrect));
    assert_eq!(player_xy(&w), (4, 4));
    assert_eq!(box_cells(&w), vec![(4, 3)]);
    assert_eq!(g.moves_count, 0);
}

#[test]
fn push_into_another_box_is_blocked() {
    let mut w = World::new(8, 8);
    w.add_player(1, 4);
    w.add_box(1, 3);
    w.add_box(1, 2);
    assert!(w.is_well_formed());
    assert_eq!(resolve(&mut w, Direction::Up), MoveOutcome::Blocked);
    assert_eq!(player_xy(&w), (1, 4));
    let mut boxes = box_cells(&w);
    boxes.sort();
    assert_eq!(boxes, vec![(1, 2), (1, 3)]);
}

#[test]
fn push_onto_spot_reports_landing() {
    // A box at (3,2) with the free spot cell (3,1) above it: pushing up
    // moves the box onto the spot and the player into the box's cell.
    let mut w = World::new(8, 9);
    w.add_player(3, 3);
    w.add_box(3, 2);
    w.add_spot(3, 1);
    assert!(w.is_well_formed());
    let outcome = resolve(&mut w, Direction::Up);
    assert_eq!(
        outcome,
        MoveOutcome::BoxPushed { on_spot: true, left_spot: false }
    );
    assert_eq!(player_xy(&w), (3, 2));
    assert_eq!(box_cells(&w), vec![(3, 1)]);
}

#[test]
fn push_onto_spot_through_tick_counts_and_cues() {
    let mut w = World::new(8, 9);
    w.add_player(3, 3);
    w.add_box(3, 2);
    w.add_spot(3, 1);
    assert!(w.is_well_formed());
    let mut q = InputQueue::new();
    let mut g = Gameplay::new();
    q.push(Direction::Up);
    let cue = tick(&mut w, &mut q, &mut g);
    assert_eq!(cue, Some(SoundCue::Correct));
    assert_eq!(g.moves_count, 1);
    assert_eq!(player_xy(&w), (3, 2));
    assert_eq!(box_cells(&w), vec![(3, 1)]);
}

#[test]
fn push_off_a_spot_reports_leaving() {
    let mut w = World::new(8, 8);
    w.add_player(5, 5);
    w.add_box(5, 4);
    w.add_spot(5, 4);
    assert!(w.is_well_formed());
    let outcome = resolve(&mut w, Direction::Up);
    assert_eq!(
        outcome,
        MoveOutcome::BoxPushed { on_spot: false, left_spot: true }
    );
    assert_eq!(box_cells(&w), vec![(5, 3)]);
}

#[test]
fn last_box_pushed_onto_spot_wins_within_the_tick() {
    let mut w = World::new(8, 9);
    w.add_player(3, 3);
    w.add_box(3, 2);
    w.add_spot(3, 1);
    w.add_box(6, 6);
    w.add_spot(6, 6);
    assert!(w.is_well_formed());
    let mut q = InputQueue::new();
    let mut g = Gameplay::new();
    assert_eq!(g.state, GameplayState::Playing);
    q.push(Direction::Up);
    tick(&mut w, &mut q, &mut g);
    assert_eq!(g.state, GameplayState::Won);
}

#[test]
fn win_needs_every_box_on_a_spot() {
    let mut w = World::new(8, 8);
    w.add_player(1, 1);
    w.add_box(4, 4);
    w.add_spot(4, 4);
    w.add_box(5, 5);
    w.add_spot(2, 2);
    assert!(w.is_well_formed());
    let mut q = InputQueue::new();
    let mut g = Gameplay::new();
    tick(&mut w, &mut q, &mut g);
    assert_eq!(g.state, GameplayState::Playing);
}

#[test]
fn won_status_is_permanent() {
    let mut w = World::new(8, 8);
    w.add_player(1, 1);
    w.add_box(4, 4);
    w.add_spot(4, 4);
    assert!(w.is_well_formed());
    let mut q = InputQueue::new();
    let mut g = Gameplay::new();
    tick(&mut w, &mut q, &mut g);
    assert_eq!(g.state, GameplayState::Won);
    // Keep playing: further ticks, moved or idle, never reset the status.
    q.push(Direction::Right);
    tick(&mut w, &mut q, &mut g);
    assert_eq!(g.state, GameplayState::Won);
    tick(&mut w, &mut q, &mut g);
    assert_eq!(g.state, GameplayState::Won);
}

#[test]
fn boxes_are_conserved_over_any_tick_sequence() {
    let mut w = World::new(8, 9);
    w.add_player(4, 4);
    w.add_box(4, 3);
    w.add_wall(4, 2);
    w.add_box(2, 4);
    w.add_spot(1, 4);
    assert!(w.is_well_formed());
    assert_eq!(w.count_boxes(), 2);
    let mut q = InputQueue::new();
    let mut g = Gameplay::new();
    for d in [
        Direction::Up,
        Direction::Left,
        Direction::Left,
        Direction::Down,
        Direction::Right,
        Direction::Up,
        Direction::Up,
    ] {
        q.push(d);
        tick(&mut w, &mut q, &mut g);
        assert_eq!(w.count_boxes(), 2);
        assert_eq!(box_cells(&w).len(), 2);
    }
}

#[test]
fn no_two_solids_ever_share_a_cell() {
    let mut w = World::new(8, 8);
    w.add_player(3, 4);
    w.add_box(3, 3);
    w.add_box(3, 2);
    w.add_wall(3, 1);
    w.add_spot(5, 5);
    assert!(w.is_well_formed());
    let mut q = InputQueue::new();
    let mut g = Gameplay::new();
    for d in [
        Direction::Up,
        Direction::Up,
        Direction::Right,
        Direction::Up,
        Direction::Left,
        Direction::Left,
        Direction::Down,
    ] {
        q.push(d);
        tick(&mut w, &mut q, &mut g);
        assert!(w.is_well_formed());
        let cells = solid_cells(&w);
        for a in 0..cells.len() {
            for b in 0..cells.len() {
                if a != b {
                    assert_ne!(cells[a], cells[b]);
                }
            }
        }
    }
}

#[test]
fn counter_counts_moves_and_pushes_only() {
    let mut w = World::new(8, 8);
    w.add_player(2, 3);
    w.add_box(2, 2);
    w.add_wall(4, 3);
    assert!(w.is_well_formed());
    let mut q = InputQueue::new();
    let mut g = Gameplay::new();
    q.push(Direction::Right);
    tick(&mut w, &mut q, &mut g); // step onto a free cell
    assert_eq!(g.moves_count, 1);
    q.push(Direction::Right);
    tick(&mut w, &mut q, &mut g); // blocked by the wall at (4,3)
    assert_eq!(g.moves_count, 1);
    q.push(Direction::Left);
    tick(&mut w, &mut q, &mut g); // step back
    assert_eq!(g.moves_count, 2);
    q.push(Direction::Up);
    tick(&mut w, &mut q, &mut g); // push the box
    assert_eq!(g.moves_count, 3);
    tick(&mut w, &mut q, &mut g); // empty queue
    assert_eq!(g.moves_count, 3);
}

#[test]
fn empty_queue_ticks_change_nothing() {
    let mut w = World::new(8, 9);
    w.add_player(4, 4);
    w.add_box(4, 3);
    w.add_spot(2, 2);
    w.add_wall(0, 0);
    assert!(w.is_well_formed());
    let mut q = InputQueue::new();
    let mut g = Gameplay::new();
    let before: Vec<(u8, u8, u8)> = w
        .entities
        .iter()
        .map(|e| (e.position.x, e.position.y, e.position.z))
        .collect();
    for _ in 0..5 {
        let cue = tick(&mut w, &mut q, &mut g);
        assert_eq!(cue, None);
        let after: Vec<(u8, u8, u8)> = w
            .entities
            .iter()
            .map(|e| (e.position.x, e.position.y, e.position.z))
            .collect();
        assert_eq!(before, after);
        assert_eq!(g.moves_count, 0);
        assert_eq!(g.state, GameplayState::Playing);
        assert_eq!(q.keys_pressed.len(), 0);
    }
}

#[test]
fn blocked_move_keeps_later_intents() {
    let mut w = World::new(8, 8);
    w.add_player(1, 1);
    w.add_wall(1, 0);
    assert!(w.is_well_formed());
    let mut q = InputQueue::new();
    let mut g = Gameplay::new();
    q.push(Direction::Up); // blocked
    q.push(Direction::Right); // still pending after the blocked tick
    let first = tick(&mut w, &mut q, &mut g);
    assert_eq!(first, Some(SoundCue::Incorrect));
    assert_eq!(q.keys_pressed.len(), 1);
    tick(&mut w, &mut q, &mut g);
    assert_eq!(player_xy(&w), (2, 1));
    assert_eq!(q.keys_pressed.len(), 0);
}

#[test]
fn malformed_tables_are_rejected_at_load() {
    let mut no_player = World::new(4, 4);
    no_player.add_box(1, 1);
    assert!(!no_player.is_well_formed());

    let mut two_players = World::new(4, 4);
    two_players.add_player(1, 1);
    two_players.add_player(2, 2);
    assert!(!two_players.is_well_formed());

    let mut box_on_wall = World::new(4, 4);
    box_on_wall.add_player(1, 1);
    box_on_wall.add_wall(2, 2);
    box_on_wall.add_box(2, 2);
    assert!(!box_on_wall.is_well_formed());

    let mut stacked_boxes = World::new(4, 4);
    stacked_boxes.add_player(1, 1);
    stacked_boxes.add_box(2, 2);
    stacked_boxes.add_box(2, 2);
    assert!(!stacked_boxes.is_well_formed());

    let mut out_of_bounds = World::new(4, 4);
    out_of_bounds.add_player(1, 1);
    out_of_bounds.add_wall(7, 1);
    assert!(!out_of_bounds.is_well_formed());
}

#[test]
fn player_position_reads_the_single_player() {
    let mut w = World::new(4, 4);
    assert!(w.player_position().is_none());
    w.add_player(3, 1);
    let p = w.player_position().expect("player was added");
    assert_eq!((p.x, p.y), (3, 1));
}
