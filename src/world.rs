use vstd::prelude::*;

use crate::components::{
    Enemy, KeyboardControlled, MovementAnimation, Position, Sprite, Velocity, MAX_SPEED,
};

verus! {

/// An index-stable entity identifier.
#[derive(Clone, Copy, Debug, PartialEq, Eq, Structural)]
pub struct Entity {
    pub id: usize,
}

/// Number of frames of one full enemy patrol.
pub const PATROL_PERIOD: u32 = 160;

/// The entity store: one slot per entity in each component table, holding
/// the component attached to that entity, if any.
#[derive(Debug)]
pub struct World {
    pub positions: Vec<Option<Position>>,
    pub velocities: Vec<Option<Velocity>>,
    pub sprites: Vec<Option<Sprite>>,
    pub animations: Vec<Option<MovementAnimation>>,
    pub keyboard_controlled: Vec<Option<KeyboardControlled>>,
    pub enemies: Vec<Option<Enemy>>,
    /// Frames run since the start of the current patrol.
    pub patrol_tick: u32,
}

/// A coordinate that one step at any allowed speed keeps within `i64`.
pub open spec fn coordinate_in_range(c: int) -> bool {
    i64::MIN + MAX_SPEED <= c <= i64::MAX - MAX_SPEED
}

pub open spec fn position_in_range(p: Position) -> bool {
    coordinate_in_range(p.0.x as int) && coordinate_in_range(p.0.y as int)
}

impl World {
    /// Number of entities created so far.
    pub open spec fn len(self) -> nat {
        self.positions@.len()
    }

    pub open spec fn wf(self) -> bool {
        &&& self.velocities@.len() == self.len()
        &&& self.sprites@.len() == self.len()
        &&& self.animations@.len() == self.len()
        &&& self.keyboard_controlled@.len() == self.len()
        &&& self.enemies@.len() == self.len()
        &&& self.patrol_tick < PATROL_PERIOD
        &&& forall|i: int|
            0 <= i < self.len() && #[trigger] self.velocities@[i] is Some ==> self.velocities@[i]->0.wf()
        &&& forall|i: int|
            0 <= i < self.len() && #[trigger] self.animations@[i] is Some ==> self.animations@[i]->0.wf()
    }

    /// Every position can take one more step without leaving `i64`.
    pub open spec fn positions_in_range(self) -> bool {
        forall|i: int|
            0 <= i < self.len() && #[trigger] self.positions@[i] is Some ==> position_in_range(
                self.positions@[i]->0,
            )
    }

    /// An empty store.
    pub fn new() -> (r: World)
        ensures
            r.wf(),
            r.len() == 0,
            r.patrol_tick == 0,
    {
        World {
            positions: Vec::new(),
            velocities: Vec::new(),
            sprites: Vec::new(),
            animations: Vec::new(),
            keyboard_controlled: Vec::new(),
            enemies: Vec::new(),
            patrol_tick: 0,
        }
    }

    /// Creates an entity with no component attached.
    pub fn create_entity(&mut self) -> (e: Entity)
        requires
            old(self).wf(),
            old(self).len() < usize::MAX,
        ensures
            final(self).wf(),
            e.id == old(self).len(),
            final(self).positions@ == old(self).positions@.push(None),
            final(self).velocities@ == old(self).velocities@.push(None),
            final(self).sprites@ == old(self).sprites@.push(None),
            final(self).animations@ == old(self).animations@.push(None),
            final(self).keyboard_controlled@ == old(self).keyboard_controlled@.push(None),
            final(self).enemies@ == old(self).enemies@.push(None),
            final(self).patrol_tick == old(self).patrol_tick,
    {
        let id = self.positions.len();
        self.positions.push(None);
        self.velocities.push(None);
        self.sprites.push(None);
        self.animations.push(None);
        self.keyboard_controlled.push(None);
        self.enemies.push(None);
        Entity { id }
    }

    /// Attaches a position to `e`, replacing any it had.
    pub fn attach_position(&mut self, e: Entity, p: Position)
        requires
            old(self).wf(),
            e.id < old(self).len(),
        ensures
            final(self).wf(),
            final(self).positions@ == old(self).positions@.update(e.id as int, Some(p)),
            final(self).velocities@ == old(self).velocities@,
            final(self).sprites@ == old(self).sprites@,
            final(self).animations@ == old(self).animations@,
            final(self).keyboard_controlled@ == old(self).keyboard_controlled@,
            final(self).enemies@ == old(self).enemies@,
            final(self).patrol_tick == old(self).patrol_tick,
    {
        self.positions.set(e.id, Some(p));
    }

    /// Attaches a velocity to `e`, replacing any it had.
    pub fn attach_velocity(&mut self, e: Entity, v: Velocity)
        requires
            old(self).wf(),
            e.id < old(self).len(),
            v.wf(),
        ensures
            final(self).wf(),
            final(self).positions@ == old(self).positions@,
            final(self).velocities@ == old(self).velocities@.update(e.id as int, Some(v)),
            final(self).sprites@ == old(self).sprites@,
            final(self).animations@ == old(self).animations@,
            final(self).keyboard_controlled@ == old(self).keyboard_controlled@,
            final(self).enemies@ == old(self).enemies@,
            final(self).patrol_tick == old(self).patrol_tick,
    {
        self.velocities.set(e.id, Some(v));
    }

    /// Attaches a sprite to `e`, replacing any it had.
    pub fn attach_sprite(&mut self, e: Entity, s: Sprite)
        requires
            old(self).wf(),
            e.id < old(self).len(),
        ensures
            final(self).wf(),
            final(self).positions@ == old(self).positions@,
            final(self).velocities@ == old(self).velocities@,
            final(self).sprites@ == old(self).sprites@.update(e.id as int, Some(s)),
            final(self).animations@ == old(self).animations@,
            final(self).keyboard_controlled@ == old(self).keyboard_controlled@,
            final(self).enemies@ == old(self).enemies@,
            final(self).patrol_tick == old(self).patrol_tick,
    {
        self.sprites.set(e.id, Some(s));
    }

    /// Attaches an animation to `e`, replacing any it had.
    pub fn attach_animation(&mut self, e: Entity, a: MovementAnimation)
        requires
            old(self).wf(),
            e.id < old(self).len(),
            a.wf(),
        ensures
            final(self).wf(),
            final(self).positions@ == old(self).positions@,
            final(self).velocities@ == old(self).velocities@,
            final(self).sprites@ == old(self).sprites@,
            final(self).animations@ == old(self).animations@.update(e.id as int, Some(a)),
            final(self).keyboard_controlled@ == old(self).keyboard_controlled@,
            final(self).enemies@ == old(self).enemies@,
            final(self).patrol_tick == old(self).patrol_tick,
    {
        self.animations.set(e.id, Some(a));
    }

    /// Tags `e` as the entity that the player steers.
    pub fn attach_keyboard_controlled(&mut self, e: Entity)
        requires
            old(self).wf(),
            e.id < old(self).len(),
        ensures
            final(self).wf(),
            final(self).positions@ == old(self).positions@,
            final(self).velocities@ == old(self).velocities@,
            final(self).sprites@ == old(self).sprites@,
            final(self).animations@ == old(self).animations@,
            final(self).keyboard_controlled@ == old(self).keyboard_controlled@.update(
                e.id as int,
                Some(KeyboardControlled),
            ),
            final(self).enemies@ == old(self).enemies@,
            final(self).patrol_tick == old(self).patrol_tick,
    {
        self.keyboard_controlled.set(e.id, Some(KeyboardControlled));
    }

    /// Tags `e` as an enemy.
    pub fn attach_enemy(&mut self, e: Entity)
        requires
            old(self).wf(),
            e.id < old(self).len(),
        ensures
            final(self).wf(),
            final(self).positions@ == old(self).positions@,
            final(self).velocities@ == old(self).velocities@,
            final(self).sprites@ == old(self).sprites@,
            final(self).animations@ == old(self).animations@,
            final(self).keyboard_controlled@ == old(self).keyboard_controlled@,
            final(self).enemies@ == old(self).enemies@.update(e.id as int, Some(Enemy)),
            final(self).patrol_tick == old(self).patrol_tick,
    {
        self.enemies.set(e.id, Some(Enemy));
    }
}

impl World {
    /// Whether every position can take one more step without leaving `i64`.
    pub fn all_positions_in_range(&self) -> (r: bool)
        requires
            self.wf(),
        ensures
            r == self.positions_in_range(),
    {
        let n = self.positions.len();
        let mut i: usize = 0;
        while i < n
            invariant
                n == self.len(),
                0 <= i <= n,
                forall|j: int|
                    0 <= j < i && #[trigger] self.positions@[j] is Some ==> position_in_range(
                        self.positions@[j]->0,
                    ),
            decreases n - i,
        {
            if let Some(p) = self.positions[i] {
                let x = p.0.x;
                let y = p.0.y;
                if x < i64::MIN + MAX_SPEED as i64 || x > i64::MAX - MAX_SPEED as i64 || y < i64::MIN
                    + MAX_SPEED as i64 || y > i64::MAX - MAX_SPEED as i64 {
                    return false;
                }
            }
            i = i + 1;
        }
        true
    }

    /// What there is to draw this frame: for each entity, its position and
    /// sprite when it has both.
    pub fn drawables(&self) -> (r: Vec<Option<(Position, Sprite)>>)
        requires
            self.wf(),
        ensures
            r@.len() == self.len(),
            forall|i: int|
                0 <= i < self.len() ==> #[trigger] r@[i] == match (self.positions@[i], self.sprites@[i]) {
                    (Some(p), Some(s)) => Some((p, s)),
                    _ => None,
                },
    {
        let n = self.positions.len();
        let mut r: Vec<Option<(Position, Sprite)>> = Vec::new();
        let mut i: usize = 0;
        while i < n
            invariant
                n == self.len(),
                self.wf(),
                0 <= i <= n,
                r@.len() == i,
                forall|j: int|
                    0 <= j < i ==> #[trigger] r@[j] == match (self.positions@[j], self.sprites@[j]) {
                        (Some(p), Some(s)) => Some((p, s)),
                        _ => None,
                    },
            decreases n - i,
        {
            let item = match (self.positions[i], self.sprites[i]) {
                (Some(p), Some(s)) => Some((p, s)),
                _ => None,
            };
            r.push(item);
            i = i + 1;
        }
        r
    }
}

} // verus!
