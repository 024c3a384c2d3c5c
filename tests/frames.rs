use game::command::{frame_input, FrameInput, InputEvent, Key, MovementCommand};
use game::components::{Direction, MovementAnimation, Point, Position, Rect, Sprite, Velocity};
use game::scheduler::{dispatch, new_game};
use game::spritesheet::{character_animation, character_animation_frames, direction_spritesheet_row};
use game::systems::{
    ai_system, animate, animator_system, integrate, keyboard_system, patrol, physics_system,
};
use game::world::World;

fn sprite(spritesheet: usize, x: i32, y: i32, width: u32, height: u32) -> Sprite {
    Sprite { spritesheet, region: Rect::new(x, y, width, height) }
}

fn player_walk_frame(i: i32, row: i32) -> Sprite {
    sprite(0, 26 * i, 36 * row, 26, 36)
}

fn position(w: &World, i: usize) -> Point {
    w.positions[i].unwrap().0
}

#[test]
fn spritesheet_rows() {
    assert_eq!(direction_spritesheet_row(Direction::Down), 0);
    assert_eq!(direction_spritesheet_row(Direction::Left), 1);
    assert_eq!(direction_spritesheet_row(Direction::Right), 2);
    assert_eq!(direction_spritesheet_row(Direction::Up), 3);
}

#[test]
fn walk_cycle_frames_lie_on_the_direction_row() {
    let frames = character_animation_frames(4, Rect::new(10, 5, 32, 36), Direction::Up);
    assert_eq!(
        frames,
        vec![sprite(4, 10, 113, 32, 36), sprite(4, 42, 113, 32, 36), sprite(4, 74, 113, 32, 36)]
    );
    let frames = character_animation_frames(1, Rect::new(0, 0, 26, 36), Direction::Down);
    assert_eq!(frames, vec![sprite(1, 0, 0, 26, 36), sprite(1, 26, 0, 26, 36), sprite(1, 52, 0, 26, 36)]);
}

#[test]
fn startup_creates_player_and_three_enemies() {
    let w = new_game(0, 1);
    assert_eq!(w.positions.len(), 4);
    assert_eq!(position(&w, 0), Point::new(0, 0));
    assert_eq!(position(&w, 1), Point::new(-150, -150));
    assert_eq!(position(&w, 2), Point::new(150, -190));
    assert_eq!(position(&w, 3), Point::new(-150, 170));
    assert!(w.keyboard_controlled[0].is_some());
    assert!(w.enemies[0].is_none());
    for i in 1..4 {
        assert!(w.enemies[i].is_some());
        assert!(w.keyboard_controlled[i].is_none());
        assert_eq!(w.sprites[i], Some(sprite(1, 0, 72, 32, 36)));
    }
    for i in 0..4 {
        assert_eq!(w.velocities[i], Some(Velocity { speed: 0, direction: Direction::Right }));
        assert!(w.animations[i].is_some());
    }
    assert_eq!(w.sprites[0], Some(player_walk_frame(0, 2)));
}

#[test]
fn move_right_then_stop() {
    let mut w = new_game(0, 1);
    let mut last_x = position(&w, 0).x;
    let mut shown = Vec::new();
    for _ in 0..5 {
        dispatch(&mut w, Some(MovementCommand::Move(Direction::Right)));
        let p = position(&w, 0);
        assert!(p.x > last_x);
        assert_eq!(p.y, 0);
        last_x = p.x;
        shown.push(w.sprites[0].unwrap());
    }
    assert_eq!(last_x, 100);
    for f in 0..3 {
        assert!(shown.contains(&player_walk_frame(f, 2)));
    }
    dispatch(&mut w, Some(MovementCommand::Stop));
    for _ in 0..3 {
        assert_eq!(position(&w, 0).x, 100);
        assert_eq!(w.sprites[0], Some(player_walk_frame(0, 2)));
        dispatch(&mut w, None);
    }
    assert_eq!(position(&w, 0).x, 100);
}

#[test]
fn move_command_then_n_steps_is_straight() {
    let mut w = new_game(0, 1);
    dispatch(&mut w, Some(MovementCommand::Move(Direction::Up)));
    for _ in 0..6 {
        dispatch(&mut w, None);
    }
    assert_eq!(position(&w, 0), Point::new(0, -140));
}

#[test]
fn opposite_commands_follow_the_latest() {
    let mut w = new_game(0, 1);
    dispatch(&mut w, Some(MovementCommand::Move(Direction::Left)));
    assert_eq!(position(&w, 0), Point::new(-20, 0));
    dispatch(&mut w, Some(MovementCommand::Move(Direction::Right)));
    assert_eq!(w.velocities[0], Some(Velocity { speed: 20, direction: Direction::Right }));
    assert_eq!(position(&w, 0), Point::new(0, 0));
    dispatch(&mut w, None);
    assert_eq!(position(&w, 0), Point::new(20, 0));
    assert_eq!(w.sprites[0], Some(player_walk_frame(0, 2)));
}

#[test]
fn enemies_ignore_the_pending_command() {
    let commands = [
        None,
        Some(MovementCommand::Stop),
        Some(MovementCommand::Move(Direction::Up)),
        Some(MovementCommand::Move(Direction::Down)),
        Some(MovementCommand::Move(Direction::Left)),
        Some(MovementCommand::Move(Direction::Right)),
    ];
    let mut reference = new_game(0, 1);
    dispatch(&mut reference, None);
    for c in commands {
        let mut w = new_game(0, 1);
        dispatch(&mut w, c);
        for i in 1..4 {
            assert_eq!(w.velocities[i], reference.velocities[i]);
            assert_eq!(w.positions[i], reference.positions[i]);
            assert_eq!(w.sprites[i], reference.sprites[i]);
        }
    }
}

#[test]
fn still_entities_keep_their_position() {
    let mut w = World::new();
    let e = w.create_entity();
    w.attach_position(e, Position(Point::new(7, -3)));
    w.attach_velocity(e, Velocity { speed: 0, direction: Direction::Left });
    physics_system(&mut w);
    physics_system(&mut w);
    assert_eq!(position(&w, 0), Point::new(7, -3));
}

#[test]
fn physics_moves_along_each_axis() {
    let p = Position(Point::new(1, 1));
    assert_eq!(integrate(p, Velocity { speed: 5, direction: Direction::Up }), Position(Point::new(1, -4)));
    assert_eq!(integrate(p, Velocity { speed: 5, direction: Direction::Down }), Position(Point::new(1, 6)));
    assert_eq!(integrate(p, Velocity { speed: 5, direction: Direction::Left }), Position(Point::new(-4, 1)));
    assert_eq!(integrate(p, Velocity { speed: 5, direction: Direction::Right }), Position(Point::new(6, 1)));
}

#[test]
fn physics_goes_far_from_the_origin() {
    let far = i64::MAX - 20;
    let p = integrate(Position(Point::new(far, i64::MIN + 20)), Velocity { speed: 20, direction: Direction::Right });
    assert_eq!(p, Position(Point::new(i64::MAX, i64::MIN + 20)));
}

fn player_animation() -> MovementAnimation {
    character_animation(0, Rect::new(0, 0, 26, 36))
}

#[test]
fn idle_pose_holds_and_turns_at_once() {
    let mut a = player_animation();
    let still_left = Velocity { speed: 0, direction: Direction::Left };
    for _ in 0..3 {
        assert_eq!(animate(&mut a, still_left), player_walk_frame(0, 1));
        assert_eq!(a.current_frame, 0);
    }
    let still_down = Velocity { speed: 0, direction: Direction::Down };
    assert_eq!(animate(&mut a, still_down), player_walk_frame(0, 0));
}

#[test]
fn walk_cycle_has_period_three_and_restarts_on_turn() {
    let mut a = player_animation();
    let right = Velocity { speed: 20, direction: Direction::Right };
    let mut shown = Vec::new();
    for _ in 0..12 {
        shown.push(animate(&mut a, right));
    }
    let expected: Vec<Sprite> = [0, 1, 1, 2, 2, 0, 0, 1, 1, 2, 2, 0]
        .iter()
        .map(|&f| player_walk_frame(f, 2))
        .collect();
    assert_eq!(shown, expected);
    for k in 0..6 {
        assert_eq!(shown[k], shown[k + 6]);
    }
    let up = Velocity { speed: 20, direction: Direction::Up };
    assert_eq!(animate(&mut a, up), player_walk_frame(0, 3));
    assert_eq!(a.current_frame, 0);
    assert_eq!(animate(&mut a, up), player_walk_frame(0, 3));
    assert_eq!(animate(&mut a, up), player_walk_frame(1, 3));
}

#[test]
fn keyboard_only_touches_the_steered_velocity() {
    let mut w = new_game(0, 1);
    keyboard_system(&mut w, Some(MovementCommand::Move(Direction::Down)));
    assert_eq!(w.velocities[0], Some(Velocity { speed: 20, direction: Direction::Down }));
    for i in 1..4 {
        assert_eq!(w.velocities[i], Some(Velocity { speed: 0, direction: Direction::Right }));
    }
    keyboard_system(&mut w, None);
    assert_eq!(w.velocities[0], Some(Velocity { speed: 20, direction: Direction::Down }));
    keyboard_system(&mut w, Some(MovementCommand::Stop));
    assert_eq!(w.velocities[0], Some(Velocity { speed: 0, direction: Direction::Down }));
}

#[test]
fn keyboard_tolerates_no_steered_entity() {
    let mut w = World::new();
    keyboard_system(&mut w, Some(MovementCommand::Move(Direction::Left)));
    assert_eq!(w.velocities.len(), 0);
    let e = w.create_entity();
    w.attach_velocity(e, Velocity { speed: 0, direction: Direction::Up });
    keyboard_system(&mut w, Some(MovementCommand::Move(Direction::Left)));
    assert_eq!(w.velocities[0], Some(Velocity { speed: 0, direction: Direction::Up }));
}

#[test]
fn enemies_patrol_a_square() {
    assert_eq!(patrol(0), Velocity { speed: 10, direction: Direction::Right });
    assert_eq!(patrol(39), Velocity { speed: 10, direction: Direction::Right });
    assert_eq!(patrol(40), Velocity { speed: 10, direction: Direction::Down });
    assert_eq!(patrol(80), Velocity { speed: 10, direction: Direction::Left });
    assert_eq!(patrol(159), Velocity { speed: 10, direction: Direction::Up });
    let mut w = new_game(0, 1);
    for _ in 0..160 {
        dispatch(&mut w, None);
    }
    assert_eq!(w.patrol_tick, 0);
    assert_eq!(position(&w, 1), Point::new(-150, -150));
    assert_eq!(position(&w, 0), Point::new(0, 0));
}

#[test]
fn ai_sets_enemy_velocities_only() {
    let mut w = new_game(0, 1);
    w.patrol_tick = 45;
    ai_system(&mut w);
    assert_eq!(w.velocities[0], Some(Velocity { speed: 0, direction: Direction::Right }));
    for i in 1..4 {
        assert_eq!(w.velocities[i], Some(Velocity { speed: 10, direction: Direction::Down }));
    }
}

#[test]
fn animator_skips_entities_without_animation() {
    let mut w = World::new();
    let e = w.create_entity();
    w.attach_velocity(e, Velocity { speed: 20, direction: Direction::Left });
    w.attach_sprite(e, sprite(3, 1, 2, 3, 4));
    animator_system(&mut w);
    assert_eq!(w.sprites[0], Some(sprite(3, 1, 2, 3, 4)));
}

#[test]
fn input_last_command_wins() {
    let events = vec![
        InputEvent::KeyDown { key: Key::Left, repeat: false },
        InputEvent::Other,
        InputEvent::KeyDown { key: Key::Up, repeat: false },
        InputEvent::KeyDown { key: Key::Down, repeat: true },
        InputEvent::KeyUp { key: Key::Other, repeat: false },
    ];
    assert_eq!(frame_input(&events), FrameInput::Run(Some(MovementCommand::Move(Direction::Up))));
    let events = vec![
        InputEvent::KeyDown { key: Key::Right, repeat: false },
        InputEvent::KeyUp { key: Key::Right, repeat: false },
    ];
    assert_eq!(frame_input(&events), FrameInput::Run(Some(MovementCommand::Stop)));
    assert_eq!(frame_input(&vec![]), FrameInput::Run(None));
}

#[test]
fn input_quit_ends_the_frame() {
    let events = vec![InputEvent::KeyDown { key: Key::Left, repeat: false }, InputEvent::Quit];
    assert_eq!(frame_input(&events), FrameInput::Quit);
    let events = vec![
        InputEvent::KeyDown { key: Key::Escape, repeat: true },
        InputEvent::KeyDown { key: Key::Left, repeat: false },
    ];
    assert_eq!(frame_input(&events), FrameInput::Quit);
}
