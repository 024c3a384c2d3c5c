use vstd::prelude::*;

use crate::command::MovementCommand;
use crate::components::{Direction, Enemy, KeyboardControlled, Point, Position, Velocity};
use crate::setup::{enemy_top_left_frame, initialize_enemy, initialize_player, player_top_left_frame};
use crate::spritesheet::{is_character_animation, walk_frame};
use crate::systems::{
    ai_slot, ai_system, animator_slots, animator_system, keyboard_slot, keyboard_system,
    physics_slot, physics_system,
};
use crate::world::{World, PATROL_PERIOD};

verus! {

/// The velocity slot of entity `i` once the keyboard and the AI have run on
/// `w` with `command` pending.
pub open spec fn frame_velocity(w: World, command: Option<MovementCommand>, i: int) -> Option<Velocity> {
    ai_slot(
        w.enemies@[i],
        keyboard_slot(w.keyboard_controlled@[i], w.velocities@[i], command),
        w.patrol_tick as int,
    )
}

/// `w` is `w0` after one frame run with `command` pending.
pub open spec fn next_frame(w0: World, command: Option<MovementCommand>, w: World) -> bool {
    &&& w.wf()
    &&& w.len() == w0.len()
    &&& forall|i: int| 0 <= i < w0.len() ==> #[trigger] w.velocities@[i] == frame_velocity(w0, command, i)
    &&& forall|i: int|
        0 <= i < w0.len() ==> #[trigger] w.positions@[i] == physics_slot(
            w0.positions@[i],
            frame_velocity(w0, command, i),
        )
    &&& forall|i: int|
        0 <= i < w0.len() ==> animator_slots(
            frame_velocity(w0, command, i),
            w0.sprites@[i],
            w0.animations@[i],
            #[trigger] w.sprites@[i],
            w.animations@[i],
        )
    &&& w.keyboard_controlled@ == w0.keyboard_controlled@
    &&& w.enemies@ == w0.enemies@
    &&& w.patrol_tick == (w0.patrol_tick + 1) % (PATROL_PERIOD as int)
}

/// Runs one frame: the keyboard system with the pending command, then the
/// AI, then physics and the animator, which both read the velocities those
/// two wrote and are independent of each other. Last, the patrol clock
/// advances.
pub fn dispatch(world: &mut World, command: Option<MovementCommand>)
    requires
        old(world).wf(),
        old(world).positions_in_range(),
    ensures
        next_frame(*old(world), command, *final(world)),
{
    keyboard_system(world, command);
    ai_system(world);
    physics_system(world);
    animator_system(world);
    world.patrol_tick = (world.patrol_tick + 1) % PATROL_PERIOD;
}

/// The store at the start of a game: the player at the origin and three
/// enemies around it, all idle and facing right.
pub fn new_game(player_spritesheet: usize, enemy_spritesheet: usize) -> (w: World)
    ensures
        w.wf(),
        w.positions_in_range(),
        w.len() == 4,
        w.patrol_tick == 0,
        w.positions@ == seq![
            Some(Position(Point { x: 0i64, y: 0i64 })),
            Some(Position(Point { x: -150i64, y: -150i64 })),
            Some(Position(Point { x: 150i64, y: -190i64 })),
            Some(Position(Point { x: -150i64, y: 170i64 })),
        ],
        forall|i: int| 0 <= i < 4 ==> #[trigger] w.velocities@[i] == Some(Velocity { speed: 0, direction: Direction::Right }),
        w.keyboard_controlled@ == seq![Some(KeyboardControlled), None, None, None],
        w.enemies@ == seq![None, Some(Enemy), Some(Enemy), Some(Enemy)],
        w.sprites@[0] == Some(walk_frame(player_spritesheet, player_top_left_frame(), Direction::Right, 0)),
        forall|i: int| 1 <= i < 4 ==> #[trigger] w.sprites@[i] == Some(walk_frame(enemy_spritesheet, enemy_top_left_frame(), Direction::Right, 0)),
        w.animations@[0] is Some,
        is_character_animation(player_spritesheet, player_top_left_frame(), w.animations@[0]->0),
        forall|i: int| 1 <= i < 4 ==> #[trigger] w.animations@[i] is Some && is_character_animation(enemy_spritesheet, enemy_top_left_frame(), w.animations@[i]->0),
{
    let mut world = World::new();
    initialize_player(&mut world, player_spritesheet);
    initialize_enemy(&mut world, enemy_spritesheet, Point::new(-150, -150));
    initialize_enemy(&mut world, enemy_spritesheet, Point::new(150, -190));
    initialize_enemy(&mut world, enemy_spritesheet, Point::new(-150, 170));
    proof {
        assert(world.positions@ =~= seq![
            Some(Position(Point { x: 0i64, y: 0i64 })),
            Some(Position(Point { x: -150i64, y: -150i64 })),
            Some(Position(Point { x: 150i64, y: -190i64 })),
            Some(Position(Point { x: -150i64, y: 170i64 })),
        ]);
        assert(world.keyboard_controlled@ =~= seq![Some(KeyboardControlled), None, None, None]);
        assert(world.enemies@ =~= seq![None, Some(Enemy), Some(Enemy), Some(Enemy)]);
    }
    world
}

/// An entity whose velocity in a frame has speed zero keeps its position
/// through that frame.
pub proof fn lemma_still_entity_stays(w0: World, command: Option<MovementCommand>, w: World, i: int)
    requires
        w0.wf(),
        next_frame(w0, command, w),
        0 <= i < w0.len(),
        w.velocities@[i] matches Some(v) && v.speed == 0,
    ensures
        w.positions@[i] == w0.positions@[i],
{
}

/// An enemy's velocity, and so its whole frame, does not depend on the
/// pending command.
pub proof fn lemma_enemies_ignore_commands(
    w0: World,
    c1: Option<MovementCommand>,
    w1: World,
    c2: Option<MovementCommand>,
    w2: World,
    i: int,
)
    requires
        w0.wf(),
        next_frame(w0, c1, w1),
        next_frame(w0, c2, w2),
        0 <= i < w0.len(),
        w0.enemies@[i] is Some,
    ensures
        w1.velocities@[i] == w2.velocities@[i],
        w1.positions@[i] == w2.positions@[i],
        w1.sprites@[i] == w2.sprites@[i],
{
}

} // verus!
