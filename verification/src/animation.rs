//! Slicing a sprite sheet into per-direction walk-cycle frame lists.
//!
//! The sheet holds 4 stacked rows, one per direction (Down=0, Left=1,
//! Right=2, Up=3), each row cut into 3 equal-width frames.

use vstd::prelude::*;

use crate::components::Direction;
use crate::components::MovementAnimation;
use crate::components::Rect;
use crate::components::Sprite;
use crate::components::spec_frames;
use crate::components::wf_animation;

verus! {

/// Row of the sprite sheet holding the walk cycle for `direction`.
pub open spec fn spec_row(direction: Direction) -> int {
    match direction {
        Direction::Up => 3,
        Direction::Down => 0,
        Direction::Left => 1,
        Direction::Right => 2,
    }
}

/// The `i`-th walk-cycle sprite for `direction`, derived from the
/// top-left frame `top_left` of sheet `sprite_sheet`: same size,
/// shifted right by `i` frame widths and down by the direction's row.
pub open spec fn spec_frame_sprite(
    sprite_sheet: usize,
    top_left: Rect,
    direction: Direction,
    i: int,
) -> Sprite {
    Sprite {
        sprite_sheet,
        region: Rect {
            x: (top_left.x + top_left.width * i) as i32,
            y: (top_left.y + top_left.height * spec_row(direction)) as i32,
            width: top_left.width,
            height: top_left.height,
        },
    }
}

/// The whole 4-row, 3-column slice grid derived from `top_left` stays
/// within `i32` coordinates.
pub open spec fn frames_fit(top_left: Rect) -> bool {
    &&& 2 * top_left.width <= i32::MAX
    &&& 3 * top_left.height <= i32::MAX
    &&& top_left.x + 2 * top_left.width <= i32::MAX
    &&& top_left.y + 3 * top_left.height <= i32::MAX
}

/// Row of the sprite sheet holding the walk cycle for `direction`.
pub fn direction_spreedsheet_row(direction: Direction) -> (row: i32)
    ensures
        row == spec_row(direction),
{
    match direction {
        Direction::Up => 3,
        Direction::Down => 0,
        Direction::Left => 1,
        Direction::Right => 2,
    }
}

/// The 3-frame walk cycle for `direction`, cut from the row of the
/// sheet that the direction selects.
pub fn character_animation_frames(
    sprite_sheet: usize,
    top_left_frame: Rect,
    direction: Direction,
) -> (frames: Vec<Sprite>)
    requires
        frames_fit(top_left_frame),
    ensures
        frames@.len() == 3,
        forall|i: int|
            0 <= i < 3 ==> frames@[i] == spec_frame_sprite(
                sprite_sheet,
                top_left_frame,
                direction,
                i,
            ),
{
    let frame_w: i32 = top_left_frame.width as i32;
    let frame_h: i32 = top_left_frame.height as i32;
    let row = direction_spreedsheet_row(direction);
    assert(0 <= frame_h as int * row as int <= 3 * frame_h as int) by (nonlinear_arith)
        requires
            0 <= row <= 3,
            frame_h >= 0,
    ;
    let y_offset = top_left_frame.y + frame_h * row;

    let mut frames: Vec<Sprite> = Vec::new();
    let mut i: i32 = 0;
    while i < 3
        invariant
            0 <= i <= 3,
            frames_fit(top_left_frame),
            frame_w == top_left_frame.width,
            frame_h == top_left_frame.height,
            y_offset == top_left_frame.y + top_left_frame.height * spec_row(direction),
            frames@.len() == i,
            forall|j: int|
                0 <= j < i ==> frames@[j] == spec_frame_sprite(
                    sprite_sheet,
                    top_left_frame,
                    direction,
                    j,
                ),
        decreases 3 - i,
    {
        assert(0 <= frame_w as int * i as int <= 2 * frame_w as int) by (nonlinear_arith)
            requires
                0 <= i <= 2,
                frame_w >= 0,
        ;
        frames.push(Sprite {
            sprite_sheet,
            region: Rect {
                x: top_left_frame.x + frame_w * i,
                y: y_offset,
                width: top_left_frame.width,
                height: top_left_frame.height,
            },
        });
        i = i + 1;
    }
    frames
}

/// A freshly constructed walk-cycle atlas: frame 0 shown, and each
/// direction's 3-frame list cut from its row of the sheet.
pub fn new_movement_animation(sprite_sheet: usize, top_left_frame: Rect) -> (a:
    MovementAnimation)
    requires
        frames_fit(top_left_frame),
    ensures
        wf_animation(a),
        a.current_frame == 0,
        forall|d: Direction, i: int|
            0 <= i < 3 ==> #[trigger] spec_frames(a, d)[i] == spec_frame_sprite(
                sprite_sheet,
                top_left_frame,
                d,
                i,
            ),
{
    MovementAnimation {
        current_frame: 0,
        up_frames: character_animation_frames(sprite_sheet, top_left_frame, Direction::Up),
        down_frames: character_animation_frames(sprite_sheet, top_left_frame, Direction::Down),
        left_frames: character_animation_frames(sprite_sheet, top_left_frame, Direction::Left),
        right_frames: character_animation_frames(sprite_sheet, top_left_frame, Direction::Right),
    }
}

} // verus!
