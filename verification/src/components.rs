//! Leaf component data attached to entities, and the frame-scoped
//! movement command consumed by the input-driven systems.

use vstd::prelude::*;

verus! {

/// One of the four axis-aligned facings an entity can have.
#[derive(Clone, Copy, Debug, PartialEq, Eq, Structural)]
pub enum Direction {
    Up,
    Down,
    Left,
    Right,
}

/// Marker component: entities carrying it react to the frame's
/// movement command.
#[derive(Clone, Copy, Debug, Default, PartialEq, Eq, Structural)]
pub struct KeyboardControlled;

/// A 2D integer point in world space.
#[derive(Clone, Copy, Debug, PartialEq, Eq, Structural)]
pub struct Point {
    pub x: i32,
    pub y: i32,
}

/// An axis-aligned rectangle within a sprite sheet.
#[derive(Clone, Copy, Debug, PartialEq, Eq, Structural)]
pub struct Rect {
    pub x: i32,
    pub y: i32,
    pub width: u32,
    pub height: u32,
}

/// World-space location of an entity. Written only by the physics
/// system.
#[derive(Clone, Copy, Debug, PartialEq, Eq, Structural)]
pub struct Position(pub Point);

/// Straight-line movement state of an entity. Written only by the
/// keyboard system. `direction` is retained when `speed` drops to 0,
/// since it determines the idle facing.
#[derive(Clone, Copy, Debug, PartialEq, Eq, Structural)]
pub struct Velocity {
    pub speed: i32,
    pub direction: Direction,
}

/// What to blit this frame: a region of one loaded sprite sheet.
#[derive(Clone, Copy, Debug, PartialEq, Eq, Structural)]
pub struct Sprite {
    pub sprite_sheet: usize,
    pub region: Rect,
}

/// The full walk-cycle atlas for one entity: a 3-frame cycle per
/// direction, plus the index of the frame currently shown.
#[derive(Debug, PartialEq)]
pub struct MovementAnimation {
    pub current_frame: usize,
    pub up_frames: Vec<Sprite>,
    pub down_frames: Vec<Sprite>,
    pub left_frames: Vec<Sprite>,
    pub right_frames: Vec<Sprite>,
}

/// The frame's distilled input intent. Produced fresh each tick by the
/// input collaborator; absence of a command means "no change".
#[derive(Clone, Copy, Debug, PartialEq, Eq, Structural)]
pub enum MovementCommand {
    Stop,
    Move(Direction),
}

/// A velocity is well formed when its speed is non-negative.
pub open spec fn wf_velocity(v: Velocity) -> bool {
    v.speed >= 0
}

/// The walk-cycle frame list of `a` for direction `d`.
pub open spec fn spec_frames(a: MovementAnimation, d: Direction) -> Seq<Sprite> {
    match d {
        Direction::Up => a.up_frames@,
        Direction::Down => a.down_frames@,
        Direction::Left => a.left_frames@,
        Direction::Right => a.right_frames@,
    }
}

/// An animation is well formed when each direction's frame list has
/// exactly 3 entries and the current frame is a valid index into them.
pub open spec fn wf_animation(a: MovementAnimation) -> bool {
    &&& a.up_frames@.len() == 3
    &&& a.down_frames@.len() == 3
    &&& a.left_frames@.len() == 3
    &&& a.right_frames@.len() == 3
    &&& a.current_frame < 3
}

impl MovementAnimation {
    /// Whether this animation is well formed. Malformed configuration
    /// is a construction-time contract violation, so an unverified
    /// caller should test this eagerly and fail fast rather than hand
    /// the animation to the store.
    pub fn is_well_formed(&self) -> (ok: bool)
        ensures
            ok == wf_animation(*self),
    {
        self.up_frames.len() == 3 && self.down_frames.len() == 3 && self.left_frames.len() == 3
            && self.right_frames.len() == 3 && self.current_frame < 3
    }
}

} // verus!
