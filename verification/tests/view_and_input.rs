//! Checks of the view-facing components (animation frame selection, the
//! visual-descriptor column) and of the input translation (swipe
//! classification, queue ordering, sound-cue mapping).

use sokoban::components::{frame_index, Direction, Renderable, RenderableKind};
use sokoban::events::{emit, SoundCue};
use sokoban::input::{swipe_intents, TouchPhase};
use sokoban::resolver::MoveOutcome;
use sokoban::resources::InputQueue;
use sokoban::world::World;

#[test]
fn frame_index_splits_the_second_in_four() {
    assert_eq!(frame_index(0), 0);
    assert_eq!(frame_index(249), 0);
    assert_eq!(frame_index(250), 1);
    assert_eq!(frame_index(510), 2);
    assert_eq!(frame_index(760), 3);
    assert_eq!(frame_index(999), 3);
    assert_eq!(frame_index(1010), 0);
    assert_eq!(frame_index(61_260), 1);
}

#[test]
fn static_descriptor_always_shows_its_image() {
    let r = Renderable::new_static("images/wall.png".to_string());
    assert_eq!(r.kind(), RenderableKind::Static);
    assert_eq!(r.image_path(0).as_str(), "images/wall.png");
    assert_eq!(r.image_path(612).as_str(), "images/wall.png");
}

#[test]
fn animated_descriptor_cycles_with_time() {
    let frames = vec![
        "images/player_1.png".to_string(),
        "images/player_2.png".to_string(),
        "images/player_3.png".to_string(),
    ];
    let r = Renderable::new_animated(frames);
    assert_eq!(r.kind(), RenderableKind::Animated);
    assert_eq!(r.image_path(100).as_str(), "images/player_1.png");
    assert_eq!(r.image_path(300).as_str(), "images/player_2.png");
    assert_eq!(r.image_path(600).as_str(), "images/player_3.png");
    // The fourth quarter-second slot wraps back onto the first frame.
    assert_eq!(r.image_path(900).as_str(), "images/player_1.png");
    assert_eq!(r.path(5).as_str(), "images/player_3.png");
}

#[test]
fn descriptor_column_runs_parallel_to_the_entities() {
    let mut w = World::new(4, 4);
    let id = w.add_player(1, 1);
    w.add_spot(2, 2);
    assert_eq!(w.renderables.len(), 2);
    assert!(w.renderables[id].is_none());
    w.attach_renderable(id, Renderable::new_static("images/player.png".to_string()));
    assert!(w.renderables[id].is_some());
    assert!(w.is_well_formed());
}

#[test]
fn swipes_past_the_threshold_queue_intents() {
    let mut q = InputQueue::new();
    swipe_intents(&mut q, 150, 0);
    assert_eq!(q.keys_pressed, vec![Direction::Right]);

    let mut q = InputQueue::new();
    swipe_intents(&mut q, -101, 20);
    assert_eq!(q.keys_pressed, vec![Direction::Left]);

    let mut q = InputQueue::new();
    swipe_intents(&mut q, 0, 150);
    assert_eq!(q.keys_pressed, vec![Direction::Down]);

    let mut q = InputQueue::new();
    swipe_intents(&mut q, 30, -101);
    assert_eq!(q.keys_pressed, vec![Direction::Up]);
}

#[test]
fn short_drags_queue_nothing_and_diagonals_queue_two() {
    let mut q = InputQueue::new();
    swipe_intents(&mut q, 100, -100);
    assert_eq!(q.keys_pressed, Vec::<Direction>::new());

    swipe_intents(&mut q, 150, -150);
    assert_eq!(q.keys_pressed, vec![Direction::Right, Direction::Up]);
}

#[test]
fn queue_serves_intents_in_arrival_order() {
    let mut q = InputQueue::new();
    q.push(Direction::Right);
    q.push(Direction::Left);
    q.push(Direction::Up);
    assert_eq!(q.drain_one(), Some(Direction::Right));
    assert_eq!(q.drain_one(), Some(Direction::Left));
    assert_eq!(q.drain_one(), Some(Direction::Up));
    assert_eq!(q.drain_one(), None);
}

#[test]
fn cue_mapping_follows_the_lookup_table() {
    assert_eq!(emit(Some(MoveOutcome::Blocked)), Some(SoundCue::Incorrect));
    assert_eq!(
        emit(Some(MoveOutcome::BoxPushed { on_spot: true, left_spot: false })),
        Some(SoundCue::Correct)
    );
    assert_eq!(
        emit(Some(MoveOutcome::BoxPushed { on_spot: true, left_spot: true })),
        Some(SoundCue::Correct)
    );
    assert_eq!(
        emit(Some(MoveOutcome::BoxPushed { on_spot: false, left_spot: true })),
        None
    );
    assert_eq!(emit(Some(MoveOutcome::PlayerMoved)), None);
    assert_eq!(emit(None), None);
}

#[test]
fn touch_phases_are_distinct_labels() {
    let phases = [
        TouchPhase::Idle,
        TouchPhase::Started,
        TouchPhase::Moved,
        TouchPhase::Ended,
        TouchPhase::Cancelled,
    ];
    for a in 0..phases.len() {
        for b in 0..phases.len() {
            assert_eq!(a == b, phases[a] == phases[b]);
        }
    }
}
