use paninja::actor::{ActorState, FrameRef, Key, GRAVITY, START_X, START_Y};
use paninja::animation::{AnimationLibrary, AnimationState};
use paninja::clock::AnimationClock;
use paninja::game::GameState;

fn library() -> AnimationLibrary<u32> {
    let mut lib = AnimationLibrary::new();
    assert_eq!(lib.register(AnimationState::Idle, (100..110).collect()), Ok(()));
    assert_eq!(lib.register(AnimationState::Dead, (200..208).collect()), Ok(()));
    assert_eq!(lib.register(AnimationState::Run, (300..308).collect()), Ok(()));
    lib
}

#[test]
fn spawned_actor_defaults() {
    let a = ActorState::new();
    assert_eq!((a.x, a.y), (START_X, START_Y));
    assert_eq!((START_X, START_Y, GRAVITY), (30, 30, 5));
    assert_eq!(a.velocity, 0);
    assert_eq!(a.vertical_bias, 5);
    assert_eq!(a.state, AnimationState::Idle);
    assert_eq!(a.frame_index, 0);
    assert_eq!(a.sprite, FrameRef { state: AnimationState::Idle, index: 0 });
}

#[test]
fn advancing_n_times_returns_to_start() {
    let lib = library();
    for (state, n) in [(AnimationState::Idle, 10u64), (AnimationState::Run, 8), (AnimationState::Dead, 8)] {
        let mut a = ActorState::new();
        a.set_state(state);
        a.advance_frames(&lib, 3);
        let start = a.frame_index;
        assert_eq!(start, 3);
        a.advance_frames(&lib, n);
        assert_eq!(a.frame_index, start);
        assert_eq!(a.sprite, FrameRef { state, index: 3 });
    }
}

#[test]
fn frame_advance_wraps() {
    let lib = library();
    let mut a = ActorState::new();
    a.set_state(AnimationState::Run);
    a.advance_frames(&lib, 7);
    assert_eq!(a.frame_index, 7);
    a.advance_frame(&lib);
    assert_eq!(a.frame_index, 0);
    assert_eq!(a.sprite, FrameRef { state: AnimationState::Run, index: 0 });
}

#[test]
fn state_without_frames_keeps_sprite() {
    let lib = library();
    let mut a = ActorState::new();
    a.advance_frames(&lib, 4);
    let sprite = a.sprite;
    assert_eq!(sprite, FrameRef { state: AnimationState::Idle, index: 4 });
    a.set_state(AnimationState::Walk);
    for _ in 0..50 {
        a.advance_frame(&lib);
        assert_eq!(a.sprite, sprite);
    }
    a.advance_frames(&lib, 1000);
    assert_eq!(a.sprite, sprite);
    let mut clock = AnimationClock::new();
    assert_eq!(a.animate(&lib, &mut clock, 1_000_000_000), 0);
    assert_eq!(a.sprite, sprite);
    assert_eq!(clock.pending_nanos(), 1_000_000_000);
}

#[test]
fn one_tick_moves_by_velocity_and_bias() {
    let mut a = ActorState::new();
    a.velocity = -1;
    a.move_position();
    assert_eq!((a.x, a.y), (29, 35));
}

#[test]
fn ticks_move_linearly() {
    let mut a = ActorState::new();
    a.velocity = 2;
    a.vertical_bias = -3;
    for _ in 0..10 {
        a.move_position();
    }
    assert_eq!((a.x, a.y), (30 + 2 * 10, 30 - 3 * 10));
}

#[test]
fn key_down_right_twice() {
    let mut a = ActorState::new();
    a.key_down(Key::Right);
    a.key_down(Key::Right);
    assert_eq!(a.velocity, 1);
    assert_eq!(a.state, AnimationState::Run);
}

#[test]
fn key_table() {
    let mut a = ActorState::new();
    a.key_down(Key::Left);
    assert_eq!((a.velocity, a.state), (-1, AnimationState::Run));
    a.key_up(Key::Left);
    assert_eq!((a.velocity, a.state), (0, AnimationState::Idle));
    a.key_down(Key::Right);
    a.key_down(Key::Down);
    assert_eq!((a.velocity, a.state), (1, AnimationState::Dead));
    a.key_up(Key::Down);
    assert_eq!((a.velocity, a.state), (1, AnimationState::Idle));
    a.key_down(Key::Up);
    assert_eq!(a.vertical_bias, -5);
    a.key_down(Key::Up);
    assert_eq!(a.vertical_bias, -5);
    a.key_up(Key::Up);
    assert_eq!(a.vertical_bias, 5);
    a.key_up(Key::Up);
    assert_eq!(a.vertical_bias, 5);
    let before = a;
    a.key_down(Key::Other);
    a.key_up(Key::Other);
    assert_eq!(a, before);
}

#[test]
fn last_direction_key_wins() {
    let mut a = ActorState::new();
    a.key_down(Key::Right);
    a.key_down(Key::Left);
    assert_eq!((a.velocity, a.state), (-1, AnimationState::Run));
    a.key_up(Key::Right);
    assert_eq!((a.velocity, a.state), (0, AnimationState::Idle));
}

#[test]
fn state_change_restarts_at_frame_zero() {
    let lib = library();
    let mut a = ActorState::new();
    a.advance_frames(&lib, 9);
    assert_eq!(a.frame_index, 9);
    a.key_down(Key::Right);
    assert_eq!(a.frame_index, 0);
    a.advance_frame(&lib);
    assert_eq!(a.sprite, FrameRef { state: AnimationState::Run, index: 1 });
    a.key_down(Key::Right);
    assert_eq!(a.frame_index, 1);
}

#[test]
fn run_scenario() {
    let mut a = ActorState::new();
    assert_eq!((a.x, a.y, a.velocity, a.vertical_bias), (30, 30, 0, 5));
    a.key_down(Key::Right);
    assert_eq!((a.velocity, a.state), (1, AnimationState::Run));
    for _ in 0..3 {
        a.move_position();
    }
    assert_eq!((a.x, a.y), (33, 45));
    a.key_up(Key::Right);
    assert_eq!((a.velocity, a.state), (0, AnimationState::Idle));
    a.move_position();
    a.move_position();
    assert_eq!(a.x, 33);
}

#[test]
fn game_update_moves_and_animates() {
    let mut game = GameState::new(library());
    assert_eq!(game.current_frame(), Some(&100));
    game.key_down_event(Key::Right);
    // two and a half intervals at 20 frames per second
    assert_eq!(game.update(125_000_000), 2);
    assert_eq!((game.hero.x, game.hero.y), (31, 35));
    assert_eq!(game.sprite(), FrameRef { state: AnimationState::Run, index: 2 });
    assert_eq!(game.current_frame(), Some(&302));
    assert_eq!(game.clock.pending_nanos(), 25_000_000);
    assert_eq!(game.update(25_000_000), 1);
    assert_eq!(game.current_frame(), Some(&303));
    assert_eq!(game.clock.pending_nanos(), 0);
    game.key_up_event(Key::Right);
    assert_eq!(game.update(0), 0);
    assert_eq!((game.hero.x, game.hero.y), (32, 45));
    assert_eq!(game.current_frame(), Some(&303));
}

#[test]
fn game_scenario_in_ticks() {
    let mut game = GameState::new(library());
    game.key_down_event(Key::Right);
    for _ in 0..3 {
        game.update(1);
    }
    assert_eq!((game.hero.x, game.hero.y), (33, 45));
    game.key_up_event(Key::Right);
    game.update(1);
    assert_eq!(game.hero.x, 33);
    assert_eq!(game.hero.state, AnimationState::Idle);
}
