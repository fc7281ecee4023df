//! The animation-selection system: advances the walk cycle and picks
//! the sprite to show, driven by the frame's movement command.

use vstd::prelude::*;

use crate::components::Direction;
use crate::components::MovementAnimation;
use crate::components::MovementCommand;
use crate::components::Sprite;
use crate::components::Velocity;
use crate::components::spec_frames;
use crate::world::World;
use crate::world::WorldView;
use crate::world::wf_world;

verus! {

/// The walk-cycle index a command leaves an entity on: `Stop` resets
/// to the canonical idle pose 0; `Move` advances by one, wrapping
/// after the third frame.
pub open spec fn spec_next_frame(a: MovementAnimation, c: MovementCommand) -> int {
    match c {
        MovementCommand::Stop => 0,
        MovementCommand::Move(d) => (a.current_frame + 1) % 3,
    }
}

/// The facing whose frame list a command selects: `Move(d)` selects
/// `d`; `Stop` keeps the entity's last-known facing, taken from its
/// velocity.
pub open spec fn spec_facing(v: Velocity, c: MovementCommand) -> Direction {
    match c {
        MovementCommand::Stop => v.direction,
        MovementCommand::Move(d) => d,
    }
}

/// The animation state a command leaves behind: only the current
/// frame index changes; the four frame lists are untouched.
pub open spec fn spec_animated(a: MovementAnimation, c: MovementCommand) -> MovementAnimation {
    MovementAnimation {
        current_frame: spec_next_frame(a, c) as usize,
        up_frames: a.up_frames,
        down_frames: a.down_frames,
        left_frames: a.left_frames,
        right_frames: a.right_frames,
    }
}

/// The sprite a command makes visible: the entry of the selected
/// facing's frame list at the new walk-cycle index.
pub open spec fn spec_selected_sprite(
    a: MovementAnimation,
    v: Velocity,
    c: MovementCommand,
) -> Sprite {
    spec_frames(a, spec_facing(v, c))[spec_next_frame(a, c)]
}

/// Whether the animator touches entity `i` of `w`: it must have an
/// animation, a visible sprite and a velocity.
pub open spec fn animator_touches(w: WorldView, i: int) -> bool {
    &&& w.animations[i] is Some
    &&& w.sprites[i] is Some
    &&& w.velocities[i] is Some
}

/// What the animation system leaves in the animation and sprite
/// columns: an absent command holds the animation entirely; otherwise
/// every entity with an animation, a sprite and a velocity gets the
/// command's walk-cycle index and visible sprite, and every other
/// entity is untouched.
pub open spec fn spec_animator(w: WorldView, cmd: Option<MovementCommand>) -> WorldView {
    match cmd {
        None => w,
        Some(c) => WorldView {
            animations: Seq::new(
                w.animations.len(),
                |i: int|
                    if animator_touches(w, i) {
                        Some(spec_animated(w.animations[i]->0, c))
                    } else {
                        w.animations[i]
                    },
            ),
            sprites: Seq::new(
                w.sprites.len(),
                |i: int|
                    if animator_touches(w, i) {
                        Some(spec_selected_sprite(w.animations[i]->0, w.velocities[i]->0, c))
                    } else {
                        w.sprites[i]
                    },
            ),
            ..w
        },
    }
}

/// The animation-selection system. Depends on the input mapper's
/// writes to the velocity column and on nothing else; in particular
/// it is independent of the physics system.
pub struct Animator;

impl Animator {
    /// Apply the frame's movement command to every entity that has an
    /// animation, a visible sprite and a velocity. An absent command
    /// changes neither walk-cycle indices nor sprites.
    pub fn run(&mut self, world: &mut World, cmd: Option<MovementCommand>)
        requires
            old(world).inv(),
        ensures
            final(world).inv(),
            final(world)@ == spec_animator(old(world)@, cmd),
    {
        match cmd {
            None => {
            },
            Some(c) => {
                let n = world.animations.len();
                let mut i: usize = 0;
                while i < n
                    invariant
                        0 <= i <= n,
                        n == old(world)@.len(),
                        wf_world(old(world)@),
                        world@.positions == old(world)@.positions,
                        world@.velocities == old(world)@.velocities,
                        world@.tags == old(world)@.tags,
                        world@.animations.len() == n,
                        world@.sprites.len() == n,
                        forall|j: int|
                            0 <= j < i ==> world@.animations[j] == spec_animator(
                                old(world)@,
                                Some(c),
                            ).animations[j],
                        forall|j: int|
                            0 <= j < i ==> world@.sprites[j] == spec_animator(
                                old(world)@,
                                Some(c),
                            ).sprites[j],
                        forall|j: int| i <= j < n ==> world@.animations[j] == old(
                            world,
                        )@.animations[j],
                        forall|j: int| i <= j < n ==> world@.sprites[j] == old(world)@.sprites[j],
                    decreases n - i,
                {
                    let vel_opt = world.velocities[i];
                    let spr_opt = world.sprites[i];
                    let mut update: Option<(usize, Sprite)> = None;
                    match &world.animations[i] {
                        Some(a) => {
                            if spr_opt.is_some() && vel_opt.is_some() {
                                let v = vel_opt.unwrap();
                                let facing = match c {
                                    MovementCommand::Stop => v.direction,
                                    MovementCommand::Move(d) => d,
                                };
                                let f_new: usize = match c {
                                    MovementCommand::Stop => 0,
                                    MovementCommand::Move(_) => (a.current_frame + 1) % 3,
                                };
                                let list: &Vec<Sprite> = match facing {
                                    Direction::Up => &a.up_frames,
                                    Direction::Down => &a.down_frames,
                                    Direction::Left => &a.left_frames,
                                    Direction::Right => &a.right_frames,
                                };
                                update = Some((f_new, list[f_new]));
                            }
                        },
                        None => {
                        },
                    }
                    match update {
                        Some((f_new, s_new)) => {
                            match &mut world.animations[i] {
                                Some(a) => {
                                    a.current_frame = f_new;
                                },
                                None => {
                                },
                            }
                            world.sprites.set(i, Some(s_new));
                        },
                        None => {
                        },
                    }
                    i = i + 1;
                }
                proof {
                    assert(world@.animations =~= spec_animator(old(world)@, Some(c)).animations);
                    assert(world@.sprites =~= spec_animator(old(world)@, Some(c)).sprites);
                    assert(world@ =~= spec_animator(old(world)@, Some(c)));
                }
            },
        }
    }
}

/// Law: whenever the animator touches an entity, the sprite it makes
/// visible is exactly the entry of the selected facing's frame list
/// at the entity's new walk-cycle index — the shown frame never drifts
/// from the counter.
pub proof fn lemma_sprite_tracks_walk_cycle(w: WorldView, c: MovementCommand, i: int)
    requires
        wf_world(w),
        0 <= i < w.len(),
        animator_touches(w, i),
    ensures
        ({
            let after = spec_animator(w, Some(c));
            let a2 = after.animations[i]->0;
            after.sprites[i] == Some(
                spec_frames(a2, spec_facing(w.velocities[i]->0, c))[a2.current_frame as int],
            )
        }),
{
    let a = w.animations[i]->0;
    let a2 = spec_animated(a, c);
    assert(spec_frames(a2, spec_facing(w.velocities[i]->0, c)) == spec_frames(
        a,
        spec_facing(w.velocities[i]->0, c),
    ));
}

} // verus!
