use vstd::prelude::*;

use crate::components::{Direction, Enemy, KeyboardControlled, Point, Position, Rect, Velocity};
use crate::spritesheet::{character_animation, is_character_animation, walk_frame};
use crate::world::World;

verus! {

/// The top-left frame of the player's spritesheet.
pub open spec fn player_top_left_frame() -> Rect {
    Rect { x: 0, y: 0, width: 26, height: 36 }
}

/// The top-left frame of the enemies' spritesheet.
pub open spec fn enemy_top_left_frame() -> Rect {
    Rect { x: 0, y: 0, width: 32, height: 36 }
}

/// The store holds one entity more than `w0`, the others unchanged, and the
/// new one stands at `p`, idle, facing right, with the idle-right frame of
/// the character drawn from `top_left` on `spritesheet`.
pub open spec fn added_character(w0: World, w: World, spritesheet: usize, top_left: Rect, p: Point) -> bool {
    let n = w0.len() as int;
    &&& w.wf()
    &&& w.len() == n + 1
    &&& w.patrol_tick == w0.patrol_tick
    &&& w.positions@ == w0.positions@.push(Some(Position(p)))
    &&& w.velocities@ == w0.velocities@.push(Some(Velocity { speed: 0, direction: Direction::Right }))
    &&& w.sprites@ == w0.sprites@.push(Some(walk_frame(spritesheet, top_left, Direction::Right, 0)))
    &&& w.animations@.subrange(0, n) == w0.animations@
    &&& w.animations@[n] is Some
    &&& is_character_animation(spritesheet, top_left, w.animations@[n]->0)
}

/// Creates the player: steered by the keyboard, at the origin, idle and
/// facing right.
pub fn initialize_player(world: &mut World, player_spritesheet: usize)
    requires
        old(world).wf(),
        old(world).len() < usize::MAX,
    ensures
        added_character(*old(world), *final(world), player_spritesheet, player_top_left_frame(), Point { x: 0, y: 0 }),
        final(world).keyboard_controlled@ == old(world).keyboard_controlled@.push(Some(KeyboardControlled)),
        final(world).enemies@ == old(world).enemies@.push(None),
{
    let top_left = Rect::new(0, 0, 26, 36);
    let player_animation = character_animation(player_spritesheet, top_left);
    let idle = player_animation.right_frames[0];

    let e = world.create_entity();
    world.attach_keyboard_controlled(e);
    world.attach_position(e, Position(Point::new(0, 0)));
    world.attach_velocity(e, Velocity { speed: 0, direction: Direction::Right });
    world.attach_sprite(e, idle);
    world.attach_animation(e, player_animation);
    proof {
        assert(world.positions@ =~= old(world).positions@.push(Some(Position(Point { x: 0, y: 0 }))));
        assert(world.animations@.subrange(0, old(world).len() as int) =~= old(world).animations@);
        assert(idle == walk_frame(player_spritesheet, player_top_left_frame(), Direction::Right, 0));
        assert(world.velocities@ =~= old(world).velocities@.push(Some(Velocity { speed: 0, direction: Direction::Right })));
        assert(world.sprites@ =~= old(world).sprites@.push(Some(idle)));
    }
}

/// Creates an enemy at `position`, idle and facing right.
pub fn initialize_enemy(world: &mut World, enemy_spritesheet: usize, position: Point)
    requires
        old(world).wf(),
        old(world).len() < usize::MAX,
    ensures
        added_character(*old(world), *final(world), enemy_spritesheet, enemy_top_left_frame(), position),
        final(world).keyboard_controlled@ == old(world).keyboard_controlled@.push(None),
        final(world).enemies@ == old(world).enemies@.push(Some(Enemy)),
{
    let top_left = Rect::new(0, 0, 32, 36);
    let enemy_animation = character_animation(enemy_spritesheet, top_left);
    let idle = enemy_animation.right_frames[0];

    let e = world.create_entity();
    world.attach_enemy(e);
    world.attach_position(e, Position(position));
    world.attach_velocity(e, Velocity { speed: 0, direction: Direction::Right });
    world.attach_sprite(e, idle);
    world.attach_animation(e, enemy_animation);
    proof {
        assert(world.positions@ =~= old(world).positions@.push(Some(Position(position))));
        assert(world.animations@.subrange(0, old(world).len() as int) =~= old(world).animations@);
        assert(idle == walk_frame(enemy_spritesheet, enemy_top_left_frame(), Direction::Right, 0));
        assert(world.velocities@ =~= old(world).velocities@.push(Some(Velocity { speed: 0, direction: Direction::Right })));
        assert(world.sprites@ =~= old(world).sprites@.push(Some(idle)));
    }
}

} // verus!
