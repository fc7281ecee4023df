//! The input-mapping system: turns the frame's movement command into
//! velocities for the keyboard-controlled entities.

use vstd::prelude::*;

use crate::components::MovementCommand;
use crate::components::Velocity;
use crate::components::wf_velocity;
use crate::world::World;
use crate::world::WorldView;
use crate::world::wf_world;

verus! {

/// Walking speed, in world units per tick, given to an entity while a
/// movement command is held.
pub const PLAYER_MOVEMENT_SPEED: i32 = 5;

/// The velocity a command gives an entity whose velocity was `v`:
/// `Stop` zeroes the speed and keeps the facing; `Move(d)` sets the
/// walking speed and faces `d`.
pub open spec fn spec_command_velocity(v: Velocity, c: MovementCommand) -> Velocity {
    match c {
        MovementCommand::Stop => Velocity { speed: 0, direction: v.direction },
        MovementCommand::Move(d) => Velocity { speed: PLAYER_MOVEMENT_SPEED, direction: d },
    }
}

/// What the keyboard system leaves in the velocity column: an absent
/// command changes nothing; otherwise every tagged entity that has a
/// velocity gets the commanded one, and all other entities keep
/// theirs.
pub open spec fn spec_keyboard(w: WorldView, cmd: Option<MovementCommand>) -> WorldView {
    match cmd {
        None => w,
        Some(c) => WorldView {
            velocities: Seq::new(
                w.velocities.len(),
                |i: int|
                    if w.tags[i] && w.velocities[i] is Some {
                        Some(spec_command_velocity(w.velocities[i]->0, c))
                    } else {
                        w.velocities[i]
                    },
            ),
            ..w
        },
    }
}

/// The velocity `c` gives an entity whose velocity was `v`.
pub fn apply_command(v: Velocity, c: MovementCommand) -> (r: Velocity)
    ensures
        r == spec_command_velocity(v, c),
        wf_velocity(r),
{
    match c {
        MovementCommand::Stop => Velocity { speed: 0, direction: v.direction },
        MovementCommand::Move(d) => Velocity { speed: PLAYER_MOVEMENT_SPEED, direction: d },
    }
}

/// The input-mapping system. Runs first in every tick, so the other
/// systems see this tick's velocities.
pub struct Keyboard;

impl Keyboard {
    /// Apply the frame's movement command to every entity tagged
    /// `KeyboardControlled` that has a velocity. An absent command
    /// leaves every velocity untouched, which is distinct from
    /// `Stop`.
    pub fn run(&mut self, world: &mut World, cmd: Option<MovementCommand>)
        requires
            old(world).inv(),
        ensures
            final(world).inv(),
            final(world)@ == spec_keyboard(old(world)@, cmd),
    {
        match cmd {
            None => {
            },
            Some(c) => {
                let n = world.velocities.len();
                let mut i: usize = 0;
                while i < n
                    invariant
                        0 <= i <= n,
                        n == old(world)@.len(),
                        wf_world(old(world)@),
                        world@.positions == old(world)@.positions,
                        world@.sprites == old(world)@.sprites,
                        world@.animations == old(world)@.animations,
                        world@.tags == old(world)@.tags,
                        world@.velocities.len() == n,
                        forall|j: int|
                            0 <= j < i ==> world@.velocities[j] == spec_keyboard(
                                old(world)@,
                                Some(c),
                            ).velocities[j],
                        forall|j: int| i <= j < n ==> world@.velocities[j] == old(
                            world,
                        )@.velocities[j],
                    decreases n - i,
                {
                    if world.tags[i] {
                        match world.velocities[i] {
                            Some(v) => {
                                world.velocities.set(i, Some(apply_command(v, c)));
                            },
                            None => {
                            },
                        }
                    }
                    i = i + 1;
                }
                proof {
                    assert(world@.velocities =~= spec_keyboard(old(world)@, Some(c)).velocities);
                    assert(world@ =~= spec_keyboard(old(world)@, Some(c)));
                }
            },
        }
    }
}

/// Law: applying the `Stop` command leaves an entity's speed at 0 and
/// its direction exactly as it was immediately before, for every
/// keyboard-controlled entity that has a velocity.
pub proof fn lemma_stop_zeroes_speed_keeps_direction(w: WorldView, i: int)
    requires
        0 <= i < w.len(),
        w.velocities.len() == w.len(),
        w.tags[i],
        w.velocities[i] is Some,
    ensures
        spec_keyboard(w, Some(MovementCommand::Stop)).velocities[i] == Some(
            Velocity { speed: 0, direction: (w.velocities[i]->0).direction },
        ),
{
}

/// Law: an absent command is a no-op for the input mapper: every
/// entity's velocity is exactly what it was before.
pub proof fn lemma_absent_command_keeps_velocities(w: WorldView)
    ensures
        spec_keyboard(w, None) == w,
{
}

} // verus!
