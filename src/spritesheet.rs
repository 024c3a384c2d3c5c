use vstd::prelude::*;

use crate::components::{Direction, MovementAnimation, Rect, Sprite, WALK_FRAMES};

verus! {

/// The row of the character spritesheet that holds the walk cycle for `d`.
pub open spec fn row_of(d: Direction) -> int {
    match d {
        Direction::Up => 3,
        Direction::Down => 0,
        Direction::Left => 1,
        Direction::Right => 2,
    }
}

/// The whole four-row, three-column grid of frames that starts at
/// `top_left` has coordinates that fit in `i32`.
pub open spec fn grid_fits(top_left: Rect) -> bool {
    &&& 2 * top_left.width <= i32::MAX
    &&& 3 * top_left.height <= i32::MAX
    &&& top_left.x + 2 * top_left.width <= i32::MAX
    &&& top_left.y + 3 * top_left.height <= i32::MAX
}

/// Frame `i` of the walk cycle in direction `d`, on a spritesheet whose
/// frames all have the size of `top_left` and are laid out in a grid from it.
pub open spec fn walk_frame(spritesheet: usize, top_left: Rect, d: Direction, i: int) -> Sprite {
    Sprite {
        spritesheet,
        region: Rect {
            x: (top_left.x + top_left.width * i) as i32,
            y: (top_left.y + top_left.height * row_of(d)) as i32,
            width: top_left.width,
            height: top_left.height,
        },
    }
}

/// The walk cycle in direction `d` as it stands on the spritesheet.
pub open spec fn walk_cycle(spritesheet: usize, top_left: Rect, d: Direction) -> Seq<Sprite> {
    Seq::new(WALK_FRAMES as nat, |i: int| walk_frame(spritesheet, top_left, d, i))
}

/// The animation of a character drawn on a standard spritesheet, idle and
/// facing right.
pub open spec fn is_character_animation(spritesheet: usize, top_left: Rect, a: MovementAnimation) -> bool {
    &&& a.current_frame == 0
    &&& a.direction == Direction::Right
    &&& a.up_frames@ == walk_cycle(spritesheet, top_left, Direction::Up)
    &&& a.down_frames@ == walk_cycle(spritesheet, top_left, Direction::Down)
    &&& a.left_frames@ == walk_cycle(spritesheet, top_left, Direction::Left)
    &&& a.right_frames@ == walk_cycle(spritesheet, top_left, Direction::Right)
}

pub fn direction_spritesheet_row(direction: Direction) -> (r: i32)
    ensures
        r == row_of(direction),
{
    match direction {
        Direction::Up => 3,
        Direction::Down => 0,
        Direction::Left => 1,
        Direction::Right => 2,
    }
}

/// Creates the walk cycle in `direction` for the standard character
/// spritesheet, whose top-left frame is `top_left_frame`.
pub fn character_animation_frames(spritesheet: usize, top_left_frame: Rect, direction: Direction) -> (r: Vec<Sprite>)
    requires
        grid_fits(top_left_frame),
    ensures
        r@ == walk_cycle(spritesheet, top_left_frame, direction),
{
    let frame_width = top_left_frame.width;
    let frame_height = top_left_frame.height;
    let row = direction_spritesheet_row(direction);
    assert(0 <= frame_height * row <= 3 * frame_height) by (nonlinear_arith)
        requires
            0 <= row <= 3,
    ;
    let y_offset = top_left_frame.y + frame_height as i32 * row;

    let mut frames: Vec<Sprite> = Vec::new();
    let mut i: i32 = 0;
    while i < 3
        invariant
            0 <= i <= 3,
            grid_fits(top_left_frame),
            frame_width == top_left_frame.width,
            frame_height == top_left_frame.height,
            y_offset == top_left_frame.y + top_left_frame.height * row_of(direction),
            frames@.len() == i,
            forall|k: int| 0 <= k < i ==> frames@[k] == walk_frame(spritesheet, top_left_frame, direction, k),
        decreases 3 - i,
    {
        assert(0 <= frame_width * i <= 2 * frame_width) by (nonlinear_arith)
            requires
                0 <= i <= 2,
        ;
        frames.push(Sprite {
            spritesheet,
            region: Rect::new(top_left_frame.x + frame_width as i32 * i, y_offset, frame_width, frame_height),
        });
        i = i + 1;
    }
    assert(frames@ =~= walk_cycle(spritesheet, top_left_frame, direction));
    frames
}

/// Creates the animation of a character on the standard spritesheet, idle
/// and facing right.
pub fn character_animation(spritesheet: usize, top_left_frame: Rect) -> (r: MovementAnimation)
    requires
        grid_fits(top_left_frame),
    ensures
        is_character_animation(spritesheet, top_left_frame, r),
        r.wf(),
{
    MovementAnimation {
        current_frame: 0,
        direction: Direction::Right,
        up_frames: character_animation_frames(spritesheet, top_left_frame, Direction::Up),
        down_frames: character_animation_frames(spritesheet, top_left_frame, Direction::Down),
        left_frames: character_animation_frames(spritesheet, top_left_frame, Direction::Left),
        right_frames: character_animation_frames(spritesheet, top_left_frame, Direction::Right),
    }
}

} // verus!
