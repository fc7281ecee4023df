//! The physics system: straight-line velocity integration into
//! positions.

use vstd::prelude::*;

use crate::components::Direction;
use crate::components::Point;
use crate::components::Position;
use crate::components::Velocity;
use crate::world::World;
use crate::world::WorldView;
use crate::world::wf_world;

verus! {

/// Horizontal displacement per tick of an entity with velocity `v`:
/// `Left` moves by `-speed`, `Right` by `speed`, the vertical
/// directions not at all.
pub open spec fn spec_dx(v: Velocity) -> int {
    match v.direction {
        Direction::Left => -v.speed,
        Direction::Right => v.speed as int,
        Direction::Up => 0,
        Direction::Down => 0,
    }
}

/// Vertical displacement per tick of an entity with velocity `v`:
/// `Up` moves by `-speed` (towards smaller y), `Down` by `speed`, the
/// horizontal directions not at all.
pub open spec fn spec_dy(v: Velocity) -> int {
    match v.direction {
        Direction::Left => 0,
        Direction::Right => 0,
        Direction::Up => -v.speed,
        Direction::Down => v.speed as int,
    }
}

/// Where one tick of integration puts an entity at `p` moving with
/// `v`.
pub open spec fn spec_moved(p: Position, v: Velocity) -> Position {
    Position(Point { x: (p.0.x + spec_dx(v)) as i32, y: (p.0.y + spec_dy(v)) as i32 })
}

/// One tick of integration of `v` starting from `p` stays within
/// `i32` coordinates.
pub open spec fn spec_move_fits(p: Position, v: Velocity) -> bool {
    &&& i32::MIN <= p.0.x + spec_dx(v) <= i32::MAX
    &&& i32::MIN <= p.0.y + spec_dy(v) <= i32::MAX
}

/// Every entity of `w` that the physics system touches can be
/// integrated without leaving `i32` coordinates.
pub open spec fn spec_physics_fits(w: WorldView) -> bool {
    forall|i: int|
        0 <= i < w.positions.len() && #[trigger] w.positions[i] is Some && w.velocities[i] is Some
            ==> spec_move_fits(w.positions[i]->0, w.velocities[i]->0)
}

/// What the physics system leaves in the position column: every
/// entity that has both a position and a velocity moves by its
/// displacement; all other entities keep their position.
pub open spec fn spec_physics(w: WorldView) -> WorldView {
    WorldView {
        positions: Seq::new(
            w.positions.len(),
            |i: int|
                if w.positions[i] is Some && w.velocities[i] is Some {
                    Some(spec_moved(w.positions[i]->0, w.velocities[i]->0))
                } else {
                    w.positions[i]
                },
        ),
        ..w
    }
}

/// The physics-integration system. Depends on the input mapper's
/// writes to the velocity column and on nothing else.
pub struct Physics;

impl Physics {
    /// Move every entity that has both a position and a velocity by
    /// the displacement its velocity dictates. Deterministic; no
    /// clamping to screen bounds — off-screen positions are allowed.
    pub fn run(&mut self, world: &mut World)
        requires
            old(world).inv(),
            spec_physics_fits(old(world)@),
        ensures
            final(world).inv(),
            final(world)@ == spec_physics(old(world)@),
    {
        let n = world.positions.len();
        let mut i: usize = 0;
        while i < n
            invariant
                0 <= i <= n,
                n == old(world)@.len(),
                wf_world(old(world)@),
                spec_physics_fits(old(world)@),
                world@.velocities == old(world)@.velocities,
                world@.sprites == old(world)@.sprites,
                world@.animations == old(world)@.animations,
                world@.tags == old(world)@.tags,
                world@.positions.len() == n,
                forall|j: int|
                    0 <= j < i ==> world@.positions[j] == spec_physics(old(world)@).positions[j],
                forall|j: int| i <= j < n ==> world@.positions[j] == old(world)@.positions[j],
            decreases n - i,
        {
            match (world.positions[i], world.velocities[i]) {
                (Some(pos), Some(vel)) => {
                    let (dx, dy): (i32, i32) = match vel.direction {
                        Direction::Left => (-vel.speed, 0),
                        Direction::Right => (vel.speed, 0),
                        Direction::Up => (0, -vel.speed),
                        Direction::Down => (0, vel.speed),
                    };
                    let moved = Position(Point { x: pos.0.x + dx, y: pos.0.y + dy });
                    world.positions.set(i, Some(moved));
                },
                _ => {
                },
            }
            i = i + 1;
        }
        proof {
            assert(world@.positions =~= spec_physics(old(world)@).positions);
            assert(world@ =~= spec_physics(old(world)@));
        }
    }
}

} // verus!
