use vstd::prelude::*;

verus! {

/// One of the four directions a character can face or walk in.
#[derive(Clone, Copy, Debug, PartialEq, Eq, Structural)]
pub enum Direction {
    Up,
    Down,
    Left,
    Right,
}

/// A point on the integer plane.
#[derive(Clone, Copy, Debug, PartialEq, Eq, Structural)]
pub struct Point {
    pub x: i64,
    pub y: i64,
}

impl Point {
    pub fn new(x: i64, y: i64) -> (r: Point)
        ensures
            r == (Point { x, y }),
    {
        Point { x, y }
    }
}

/// An axis-aligned rectangle: its top-left corner and its size.
#[derive(Clone, Copy, Debug, PartialEq, Eq, Structural)]
pub struct Rect {
    pub x: i32,
    pub y: i32,
    pub width: u32,
    pub height: u32,
}

impl Rect {
    pub fn new(x: i32, y: i32, width: u32, height: u32) -> (r: Rect)
        ensures
            r == (Rect { x, y, width, height }),
    {
        Rect { x, y, width, height }
    }
}

/// Where an entity stands.
#[derive(Clone, Copy, Debug, PartialEq, Eq, Structural)]
pub struct Position(pub Point);

/// How fast an entity walks, and which way it faces. The direction is kept
/// when the speed drops to zero, so that an idle entity still faces the way
/// it last walked.
#[derive(Clone, Copy, Debug, PartialEq, Eq, Structural)]
pub struct Velocity {
    pub speed: i32,
    pub direction: Direction,
}

/// The region of a spritesheet that is drawn for an entity.
#[derive(Clone, Copy, Debug, PartialEq, Eq, Structural)]
pub struct Sprite {
    /// Index of the spritesheet among the loaded textures.
    pub spritesheet: usize,
    /// The region of the spritesheet to draw.
    pub region: Rect,
}

/// The walk cycle of an entity: three frames for each direction, and a
/// counter that selects among them while the entity moves.
#[derive(Debug)]
pub struct MovementAnimation {
    /// Counts the frames spent walking in `direction`, modulo the cycle length.
    pub current_frame: usize,
    /// The direction the counter refers to.
    pub direction: Direction,
    pub up_frames: Vec<Sprite>,
    pub down_frames: Vec<Sprite>,
    pub left_frames: Vec<Sprite>,
    pub right_frames: Vec<Sprite>,
}

/// Marks the entity that the player steers.
#[derive(Clone, Copy, Debug, PartialEq, Eq, Structural)]
pub struct KeyboardControlled;

/// Marks an entity that moves by itself.
#[derive(Clone, Copy, Debug, PartialEq, Eq, Structural)]
pub struct Enemy;

/// Speed given to the player by a move command.
pub const PLAYER_MOVEMENT_SPEED: i32 = 20;

/// Speed at which enemies patrol.
pub const ENEMY_MOVEMENT_SPEED: i32 = 10;

/// No entity ever walks faster than this.
pub const MAX_SPEED: i32 = 20;

/// Number of frames of a walk cycle.
pub const WALK_FRAMES: usize = 3;

/// Number of game frames each walk frame is shown for.
pub const FRAME_DIVISOR: usize = 2;

/// Length of the walk cycle counted in game frames.
pub const CYCLE_LENGTH: usize = WALK_FRAMES * FRAME_DIVISOR;

impl Velocity {
    /// A speed that no system can push out of `i64` coordinates in one step.
    pub open spec fn wf(self) -> bool {
        0 <= self.speed <= MAX_SPEED
    }
}

impl MovementAnimation {
    pub open spec fn frames(self, d: Direction) -> Seq<Sprite> {
        match d {
            Direction::Up => self.up_frames@,
            Direction::Down => self.down_frames@,
            Direction::Left => self.left_frames@,
            Direction::Right => self.right_frames@,
        }
    }

    /// Every direction has a full walk cycle and the counter stays within it.
    pub open spec fn wf(self) -> bool {
        &&& self.up_frames@.len() == WALK_FRAMES
        &&& self.down_frames@.len() == WALK_FRAMES
        &&& self.left_frames@.len() == WALK_FRAMES
        &&& self.right_frames@.len() == WALK_FRAMES
        &&& self.current_frame < CYCLE_LENGTH
    }

    /// The frames of the walk cycle in direction `d`.
    pub fn frames_for(&self, d: Direction) -> (r: &Vec<Sprite>)
        ensures
            r@ == self.frames(d),
    {
        match d {
            Direction::Up => &self.up_frames,
            Direction::Down => &self.down_frames,
            Direction::Left => &self.left_frames,
            Direction::Right => &self.right_frames,
        }
    }
}

} // verus!
