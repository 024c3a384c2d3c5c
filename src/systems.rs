use vstd::prelude::*;

use crate::command::MovementCommand;
use crate::components::{
    Direction, Enemy, KeyboardControlled, MovementAnimation, Point, Position, Sprite, Velocity, CYCLE_LENGTH,
    ENEMY_MOVEMENT_SPEED, FRAME_DIVISOR, PLAYER_MOVEMENT_SPEED, WALK_FRAMES,
};
use crate::world::{position_in_range, World, PATROL_PERIOD};

verus! {

/// Number of frames enemies walk in one direction before turning.
pub const PATROL_LEG: u32 = 40;

/// The velocity of a steered entity after `command`: a move walks at the
/// player's speed in its direction, a stop halts and keeps the facing, and
/// no command changes nothing.
pub open spec fn command_velocity(v: Velocity, command: Option<MovementCommand>) -> Velocity {
    match command {
        Some(MovementCommand::Move(d)) => Velocity { speed: PLAYER_MOVEMENT_SPEED, direction: d },
        Some(MovementCommand::Stop) => Velocity { speed: 0, direction: v.direction },
        None => v,
    }
}

/// The direction enemies walk at frame `tick` of their patrol: a square,
/// walked clockwise from its top-left corner.
pub open spec fn patrol_direction(tick: int) -> Direction {
    let leg = tick / PATROL_LEG as int;
    if leg == 0 {
        Direction::Right
    } else if leg == 1 {
        Direction::Down
    } else if leg == 2 {
        Direction::Left
    } else {
        Direction::Up
    }
}

pub open spec fn patrol_velocity(tick: int) -> Velocity {
    Velocity { speed: ENEMY_MOVEMENT_SPEED, direction: patrol_direction(tick) }
}

/// One step of length one in direction `d`: up is towards negative `y`.
pub open spec fn unit(d: Direction) -> (int, int) {
    match d {
        Direction::Up => (0, -1),
        Direction::Down => (0, 1),
        Direction::Left => (-1, 0),
        Direction::Right => (1, 0),
    }
}

/// Where one frame at velocity `v` takes an entity that stands at `p`.
pub open spec fn step(p: (int, int), v: Velocity) -> (int, int) {
    (p.0 + v.speed * unit(v.direction).0, p.1 + v.speed * unit(v.direction).1)
}

pub open spec fn coords(p: Position) -> (int, int) {
    (p.0.x as int, p.0.y as int)
}

/// `p` moved one frame at velocity `v`.
pub open spec fn moved(p: Position, v: Velocity) -> Position {
    Position(Point { x: step(coords(p), v).0 as i64, y: step(coords(p), v).1 as i64 })
}

/// The velocity slot of an entity after the keyboard system.
pub open spec fn keyboard_slot(
    k: Option<KeyboardControlled>,
    v: Option<Velocity>,
    command: Option<MovementCommand>,
) -> Option<Velocity> {
    match v {
        Some(v) => if k is Some {
            Some(command_velocity(v, command))
        } else {
            Some(v)
        },
        None => None,
    }
}

/// The velocity slot of an entity after the AI system.
pub open spec fn ai_slot(e: Option<Enemy>, v: Option<Velocity>, tick: int) -> Option<Velocity> {
    match v {
        Some(v) => if e is Some {
            Some(patrol_velocity(tick))
        } else {
            Some(v)
        },
        None => None,
    }
}

/// The animation and sprite slots of an entity after the animator system
/// are `a2` and `s2`.
pub open spec fn animator_slots(
    v: Option<Velocity>,
    s: Option<Sprite>,
    a: Option<MovementAnimation>,
    s2: Option<Sprite>,
    a2: Option<MovementAnimation>,
) -> bool {
    if v is Some && s is Some && a is Some {
        &&& a2 is Some
        &&& animated(a->0, v->0, a2->0)
        &&& s2 == Some(shown_sprite(a->0, v->0))
    } else {
        a2 == a && s2 == s
    }
}

/// The position slot of an entity after the physics system.
pub open spec fn physics_slot(p: Option<Position>, v: Option<Velocity>) -> Option<Position> {
    match (p, v) {
        (Some(p), Some(v)) => Some(moved(p, v)),
        _ => p,
    }
}

/// The walk-cycle counter after one frame at velocity `v`, for a counter
/// that referred to direction `facing`: standing still or turning starts the
/// cycle over, walking on advances it.
pub open spec fn next_counter(counter: int, facing: Direction, v: Velocity) -> int {
    if v.speed == 0 || facing != v.direction {
        0
    } else {
        (counter + 1) % (CYCLE_LENGTH as int)
    }
}

/// The walk frame that a counter selects.
pub open spec fn frame_index(counter: int) -> int {
    (counter / FRAME_DIVISOR as int) % (WALK_FRAMES as int)
}

/// The sprite shown after one frame at velocity `v`.
pub open spec fn shown_sprite(a: MovementAnimation, v: Velocity) -> Sprite {
    a.frames(v.direction)[frame_index(next_counter(a.current_frame as int, a.direction, v))]
}

/// `b` is the animation `a` after one frame at velocity `v`.
pub open spec fn animated(a: MovementAnimation, v: Velocity, b: MovementAnimation) -> bool {
    &&& b.current_frame == next_counter(a.current_frame as int, a.direction, v)
    &&& b.direction == v.direction
    &&& b.up_frames == a.up_frames
    &&& b.down_frames == a.down_frames
    &&& b.left_frames == a.left_frames
    &&& b.right_frames == a.right_frames
}

fn apply_command(v: Velocity, command: Option<MovementCommand>) -> (r: Velocity)
    ensures
        r == command_velocity(v, command),
{
    match command {
        Some(MovementCommand::Move(d)) => Velocity { speed: PLAYER_MOVEMENT_SPEED, direction: d },
        Some(MovementCommand::Stop) => Velocity { speed: 0, direction: v.direction },
        None => v,
    }
}

/// The velocity enemies patrol at, at frame `tick` of their patrol.
pub fn patrol(tick: u32) -> (r: Velocity)
    ensures
        r == patrol_velocity(tick as int),
        r.wf(),
{
    let leg = tick / PATROL_LEG;
    let direction = if leg == 0 {
        Direction::Right
    } else if leg == 1 {
        Direction::Down
    } else if leg == 2 {
        Direction::Left
    } else {
        Direction::Up
    };
    Velocity { speed: ENEMY_MOVEMENT_SPEED, direction }
}

/// Moves `p` one frame at velocity `v`.
pub fn integrate(p: Position, v: Velocity) -> (r: Position)
    requires
        position_in_range(p),
        v.wf(),
    ensures
        coords(r) == step(coords(p), v),
        r == moved(p, v),
{
    let s = v.speed as i64;
    let Position(Point { x, y }) = p;
    match v.direction {
        Direction::Up => Position(Point { x, y: y - s }),
        Direction::Down => Position(Point { x, y: y + s }),
        Direction::Left => Position(Point { x: x - s, y }),
        Direction::Right => Position(Point { x: x + s, y }),
    }
}

/// Hands the pending command to every steered entity that has a velocity.
pub fn keyboard_system(world: &mut World, command: Option<MovementCommand>)
    requires
        old(world).wf(),
    ensures
        final(world).wf(),
        final(world).len() == old(world).len(),
        forall|i: int|
            0 <= i < old(world).len() ==> #[trigger] final(world).velocities@[i] == keyboard_slot(
                old(world).keyboard_controlled@[i],
                old(world).velocities@[i],
                command,
            ),
        final(world).positions@ == old(world).positions@,
        final(world).sprites@ == old(world).sprites@,
        final(world).animations@ == old(world).animations@,
        final(world).keyboard_controlled@ == old(world).keyboard_controlled@,
        final(world).enemies@ == old(world).enemies@,
        final(world).patrol_tick == old(world).patrol_tick,
{
    let n = world.velocities.len();
    let mut i: usize = 0;
    while i < n
        invariant
            n == old(world).len(),
            0 <= i <= n,
            world.wf(),
            world.len() == n,
            forall|j: int|
                0 <= j < i ==> #[trigger] world.velocities@[j] == keyboard_slot(
                    old(world).keyboard_controlled@[j],
                    old(world).velocities@[j],
                    command,
                ),
            forall|j: int| i <= j < n ==> #[trigger] world.velocities@[j] == old(world).velocities@[j],
            world.positions@ == old(world).positions@,
            world.sprites@ == old(world).sprites@,
            world.animations@ == old(world).animations@,
            world.keyboard_controlled@ == old(world).keyboard_controlled@,
            world.enemies@ == old(world).enemies@,
            world.patrol_tick == old(world).patrol_tick,
        decreases n - i,
    {
        if world.keyboard_controlled[i].is_some() {
            if let Some(v) = world.velocities[i] {
                world.velocities.set(i, Some(apply_command(v, command)));
            }
        }
        i = i + 1;
    }
}

/// Sets every enemy that has a velocity walking its patrol. Never reads the
/// pending command.
pub fn ai_system(world: &mut World)
    requires
        old(world).wf(),
    ensures
        final(world).wf(),
        final(world).len() == old(world).len(),
        forall|i: int|
            0 <= i < old(world).len() ==> #[trigger] final(world).velocities@[i] == ai_slot(
                old(world).enemies@[i],
                old(world).velocities@[i],
                old(world).patrol_tick as int,
            ),
        final(world).positions@ == old(world).positions@,
        final(world).sprites@ == old(world).sprites@,
        final(world).animations@ == old(world).animations@,
        final(world).keyboard_controlled@ == old(world).keyboard_controlled@,
        final(world).enemies@ == old(world).enemies@,
        final(world).patrol_tick == old(world).patrol_tick,
{
    let n = world.velocities.len();
    let walk = patrol(world.patrol_tick);
    let mut i: usize = 0;
    while i < n
        invariant
            n == old(world).len(),
            0 <= i <= n,
            world.wf(),
            world.len() == n,
            walk == patrol_velocity(old(world).patrol_tick as int),
            walk.wf(),
            forall|j: int|
                0 <= j < i ==> #[trigger] world.velocities@[j] == ai_slot(
                    old(world).enemies@[j],
                    old(world).velocities@[j],
                    old(world).patrol_tick as int,
                ),
            forall|j: int| i <= j < n ==> #[trigger] world.velocities@[j] == old(world).velocities@[j],
            world.positions@ == old(world).positions@,
            world.sprites@ == old(world).sprites@,
            world.animations@ == old(world).animations@,
            world.keyboard_controlled@ == old(world).keyboard_controlled@,
            world.enemies@ == old(world).enemies@,
            world.patrol_tick == old(world).patrol_tick,
        decreases n - i,
    {
        if world.enemies[i].is_some() && world.velocities[i].is_some() {
            world.velocities.set(i, Some(walk));
        }
        i = i + 1;
    }
}

/// Moves every entity that has a position and a velocity one frame along.
pub fn physics_system(world: &mut World)
    requires
        old(world).wf(),
        old(world).positions_in_range(),
    ensures
        final(world).wf(),
        final(world).len() == old(world).len(),
        forall|i: int|
            0 <= i < old(world).len() ==> #[trigger] final(world).positions@[i] == physics_slot(
                old(world).positions@[i],
                old(world).velocities@[i],
            ),
        final(world).velocities@ == old(world).velocities@,
        final(world).sprites@ == old(world).sprites@,
        final(world).animations@ == old(world).animations@,
        final(world).keyboard_controlled@ == old(world).keyboard_controlled@,
        final(world).enemies@ == old(world).enemies@,
        final(world).patrol_tick == old(world).patrol_tick,
{
    let n = world.positions.len();
    let mut i: usize = 0;
    while i < n
        invariant
            n == old(world).len(),
            0 <= i <= n,
            world.wf(),
            world.len() == n,
            old(world).wf(),
            old(world).positions_in_range(),
            forall|j: int|
                0 <= j < i ==> #[trigger] world.positions@[j] == physics_slot(
                    old(world).positions@[j],
                    old(world).velocities@[j],
                ),
            forall|j: int| i <= j < n ==> #[trigger] world.positions@[j] == old(world).positions@[j],
            world.velocities@ == old(world).velocities@,
            world.sprites@ == old(world).sprites@,
            world.animations@ == old(world).animations@,
            world.keyboard_controlled@ == old(world).keyboard_controlled@,
            world.enemies@ == old(world).enemies@,
            world.patrol_tick == old(world).patrol_tick,
        decreases n - i,
    {
        if let Some(p) = world.positions[i] {
            if let Some(v) = world.velocities[i] {
                world.positions.set(i, Some(integrate(p, v)));
            }
        }
        i = i + 1;
    }
}

/// Advances the walk cycle of `a` by one frame at velocity `v`, and returns
/// the sprite to show.
pub fn animate(a: &mut MovementAnimation, v: Velocity) -> (r: Sprite)
    requires
        old(a).wf(),
    ensures
        final(a).wf(),
        animated(*old(a), v, *final(a)),
        r == shown_sprite(*old(a), v),
{
    let counter = if v.speed == 0 || a.direction != v.direction {
        0
    } else {
        (a.current_frame + 1) % CYCLE_LENGTH
    };
    a.current_frame = counter;
    a.direction = v.direction;
    let frames = a.frames_for(v.direction);
    frames[(counter / FRAME_DIVISOR) % WALK_FRAMES]
}

/// Shows, for every entity that has a velocity, a sprite and an animation,
/// the walk frame that its velocity selects, or its idle frame when it
/// stands still.
pub fn animator_system(world: &mut World)
    requires
        old(world).wf(),
    ensures
        final(world).wf(),
        final(world).len() == old(world).len(),
        forall|i: int|
            0 <= i < old(world).len() ==> animator_slots(
                old(world).velocities@[i],
                old(world).sprites@[i],
                old(world).animations@[i],
                #[trigger] final(world).sprites@[i],
                final(world).animations@[i],
            ),
        final(world).positions@ == old(world).positions@,
        final(world).velocities@ == old(world).velocities@,
        final(world).keyboard_controlled@ == old(world).keyboard_controlled@,
        final(world).enemies@ == old(world).enemies@,
        final(world).patrol_tick == old(world).patrol_tick,
{
    let n = world.positions.len();
    let mut i: usize = 0;
    while i < n
        invariant
            n == old(world).len(),
            0 <= i <= n,
            world.wf(),
            world.len() == n,
            forall|j: int|
                0 <= j < i ==> animator_slots(
                    old(world).velocities@[j],
                    old(world).sprites@[j],
                    old(world).animations@[j],
                    #[trigger] world.sprites@[j],
                    world.animations@[j],
                ),
            forall|j: int| i <= j < n ==> #[trigger] world.sprites@[j] == old(world).sprites@[j],
            forall|j: int| i <= j < n ==> #[trigger] world.animations@[j] == old(world).animations@[j],
            world.positions@ == old(world).positions@,
            world.velocities@ == old(world).velocities@,
            world.keyboard_controlled@ == old(world).keyboard_controlled@,
            world.enemies@ == old(world).enemies@,
            world.patrol_tick == old(world).patrol_tick,
        decreases n - i,
    {
        if let Some(v) = world.velocities[i] {
            if world.sprites[i].is_some() {
                if let Some(a) = &mut world.animations[i] {
                    let s = animate(a, v);
                    world.sprites.set(i, Some(s));
                }
            }
        }
        proof {
            assert(animator_slots(
                old(world).velocities@[i as int],
                old(world).sprites@[i as int],
                old(world).animations@[i as int],
                world.sprites@[i as int],
                world.animations@[i as int],
            ));
        }
        i = i + 1;
    }
}

/// Where `n` frames at velocity `v` take an entity that stands at `p`.
pub open spec fn walk(p: (int, int), v: Velocity, n: nat) -> (int, int)
    decreases n,
{
    if n == 0 {
        p
    } else {
        step(walk(p, v, (n - 1) as nat), v)
    }
}

/// The walk-cycle counter after `n` frames at velocity `v`, facing its
/// direction throughout.
pub open spec fn walk_counter(counter: int, v: Velocity, n: nat) -> int
    decreases n,
{
    if n == 0 {
        counter
    } else {
        next_counter(walk_counter(counter, v, (n - 1) as nat), v.direction, v)
    }
}

/// After a move command in direction `d`, `n` physics steps displace an
/// entity by exactly `n` times the player's speed along `d`, and not along
/// the other axis.
pub proof fn lemma_move_walks_straight(v: Velocity, d: Direction, p: (int, int), n: nat)
    ensures
        command_velocity(v, Some(MovementCommand::Move(d))).direction == d,
        walk(p, command_velocity(v, Some(MovementCommand::Move(d))), n) == (
            p.0 + n * PLAYER_MOVEMENT_SPEED * unit(d).0,
            p.1 + n * PLAYER_MOVEMENT_SPEED * unit(d).1,
        ),
    decreases n,
{
    let w = command_velocity(v, Some(MovementCommand::Move(d)));
    if n > 0 {
        lemma_move_walks_straight(v, d, p, (n - 1) as nat);
        let m = (n - 1) as int;
        let s = PLAYER_MOVEMENT_SPEED as int;
        assert(m * s * unit(d).0 + s * unit(d).0 == n * s * unit(d).0) by (nonlinear_arith)
            requires
                m == n - 1,
        ;
        assert(m * s * unit(d).1 + s * unit(d).1 == n * s * unit(d).1) by (nonlinear_arith)
            requires
                m == n - 1,
        ;
    }
}

/// Standing still shows the idle frame of the direction the entity faces
/// now, whatever it faced before, and doing so again changes nothing.
pub proof fn lemma_idle_pose_holds(a: MovementAnimation, v: Velocity, b: MovementAnimation)
    requires
        a.wf(),
        v.speed == 0,
        animated(a, v, b),
    ensures
        shown_sprite(a, v) == a.frames(v.direction)[0],
        b.current_frame == 0,
        b.direction == v.direction,
        shown_sprite(b, v) == shown_sprite(a, v),
{
}

/// While walking, turning shows the first frame of the new direction at
/// once; walking on in one direction runs through the three frames in order,
/// each for `FRAME_DIVISOR` frames, and comes back to the same state after
/// `CYCLE_LENGTH` frames.
pub proof fn lemma_walk_cycle(a: MovementAnimation, v: Velocity, b: MovementAnimation, n: nat)
    requires
        a.wf(),
        v.speed > 0,
        animated(a, v, b),
    ensures
        a.direction != v.direction ==> frame_index(b.current_frame as int) == 0,
        a.direction != v.direction ==> shown_sprite(a, v) == a.frames(v.direction)[0],
        a.direction == v.direction ==> b.current_frame == (a.current_frame + 1) % (CYCLE_LENGTH as int),
        walk_counter(a.current_frame as int, v, (n + CYCLE_LENGTH) as nat) == walk_counter(a.current_frame as int, v, n),
        frame_index(walk_counter(a.current_frame as int, v, (n + FRAME_DIVISOR) as nat)) == (frame_index(
            walk_counter(a.current_frame as int, v, n),
        ) + 1) % (WALK_FRAMES as int),
{
    let c = a.current_frame as int;
    lemma_walk_counter(c, v, n);
    lemma_walk_counter(c, v, (n + CYCLE_LENGTH) as nat);
    lemma_walk_counter(c, v, (n + FRAME_DIVISOR) as nat);
    let x = (c + n) % 6;
    assert((c + n + 6) % 6 == x) by (nonlinear_arith)
        requires
            x == (c + n) % 6,
    ;
    assert((c + n + 2) % 6 == (x + 2) % 6) by (nonlinear_arith)
        requires
            x == (c + n) % 6,
    ;
    assert(0 <= x < 6);
}

/// Walking on in one direction counts frames modulo the cycle length.
proof fn lemma_walk_counter(c: int, v: Velocity, n: nat)
    requires
        0 <= c < CYCLE_LENGTH,
        v.speed > 0,
    ensures
        walk_counter(c, v, n) == (c + n) % (CYCLE_LENGTH as int),
    decreases n,
{
    if n > 0 {
        lemma_walk_counter(c, v, (n - 1) as nat);
        let x = (c + n - 1) % 6;
        assert((x + 1) % 6 == (c + n) % 6) by (nonlinear_arith)
            requires
                x == (c + n - 1) % 6,
        ;
    }
}

} // verus!
