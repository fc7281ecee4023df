//! The per-tick scheduler: runs the systems in dependency order and
//! records which component columns each one reads and writes.
//!
//! The input mapper runs first; the physics and animation systems
//! both depend only on its output and touch disjoint component
//! columns, so a driver may run them concurrently. The lemmas at the
//! bottom state that their access sets do not conflict and that their
//! effects commute, so either order (or a parallel run joined before
//! the next tick) leaves the same state.

use vstd::prelude::*;

use crate::animator::Animator;
use crate::animator::spec_animator;
use crate::components::Direction;
use crate::components::MovementCommand;
use crate::components::Velocity;
use crate::components::wf_animation;
use crate::components::wf_velocity;
use crate::keyboard::Keyboard;
use crate::keyboard::apply_command;
use crate::keyboard::spec_keyboard;
use crate::physics::Physics;
use crate::physics::spec_move_fits;
use crate::physics::spec_physics;
use crate::physics::spec_physics_fits;
use crate::world::World;
use crate::world::WorldView;
use crate::world::wf_world;

verus! {

/// One component column of the store, named so a system can declare
/// which columns it touches.
pub enum ComponentKind {
    Position,
    Velocity,
    Sprite,
    Animation,
    KeyboardTag,
}

/// Columns the input mapper reads: the tag column to find its
/// entities, and the velocity column whose facing `Stop` preserves.
pub open spec fn keyboard_reads() -> Set<ComponentKind> {
    set![ComponentKind::KeyboardTag, ComponentKind::Velocity]
}

/// Columns the input mapper writes.
pub open spec fn keyboard_writes() -> Set<ComponentKind> {
    set![ComponentKind::Velocity]
}

/// Columns the physics system reads.
pub open spec fn physics_reads() -> Set<ComponentKind> {
    set![ComponentKind::Position, ComponentKind::Velocity]
}

/// Columns the physics system writes.
pub open spec fn physics_writes() -> Set<ComponentKind> {
    set![ComponentKind::Position]
}

/// Columns the animation system reads.
pub open spec fn animator_reads() -> Set<ComponentKind> {
    set![ComponentKind::Velocity, ComponentKind::Animation, ComponentKind::Sprite]
}

/// Columns the animation system writes.
pub open spec fn animator_writes() -> Set<ComponentKind> {
    set![ComponentKind::Animation, ComponentKind::Sprite]
}

/// Two systems may run concurrently when neither writes a column the
/// other reads or writes.
pub open spec fn access_compatible(
    reads1: Set<ComponentKind>,
    writes1: Set<ComponentKind>,
    reads2: Set<ComponentKind>,
    writes2: Set<ComponentKind>,
) -> bool {
    &&& writes1.disjoint(writes2)
    &&& writes1.disjoint(reads2)
    &&& writes2.disjoint(reads1)
}

/// Law: the physics and animation systems declare non-conflicting
/// access, so the scheduler may admit them concurrently.
pub proof fn lemma_physics_animator_access_compatible()
    ensures
        access_compatible(physics_reads(), physics_writes(), animator_reads(), animator_writes()),
{
    assert(physics_writes().disjoint(animator_writes())) by {
        assert forall|k: ComponentKind|
            physics_writes().contains(k) implies !animator_writes().contains(k) by {}
    }
    assert(physics_writes().disjoint(animator_reads())) by {
        assert forall|k: ComponentKind|
            physics_writes().contains(k) implies !animator_reads().contains(k) by {}
    }
    assert(animator_writes().disjoint(physics_reads())) by {
        assert forall|k: ComponentKind|
            animator_writes().contains(k) implies !physics_reads().contains(k) by {}
    }
}

/// The state one full tick leaves behind: the input mapper's
/// velocities, then integration and animation selection on top of
/// them.
pub open spec fn spec_dispatch(w: WorldView, cmd: Option<MovementCommand>) -> WorldView {
    spec_animator(spec_physics(spec_keyboard(w, cmd)), cmd)
}

/// Whether this tick's integration stays within `i32` coordinates,
/// decided against the velocities the command will install.
pub fn can_integrate(world: &World, cmd: Option<MovementCommand>) -> (b: bool)
    requires
        world.inv(),
    ensures
        b == spec_physics_fits(spec_keyboard(world@, cmd)),
{
    let ghost kb = spec_keyboard(world@, cmd);
    let n = world.positions.len();
    let mut i: usize = 0;
    while i < n
        invariant
            0 <= i <= n,
            n == world@.len(),
            wf_world(world@),
            kb == spec_keyboard(world@, cmd),
            kb.positions == world@.positions,
            kb.velocities.len() == n,
            forall|j: int|
                0 <= j < i && #[trigger] kb.positions[j] is Some && kb.velocities[j] is Some
                    ==> spec_move_fits(kb.positions[j]->0, kb.velocities[j]->0),
        decreases n - i,
    {
        let vel_opt = world.velocities[i];
        let eff: Option<Velocity> = if world.tags[i] {
            match (cmd, vel_opt) {
                (Some(c), Some(v)) => Some(apply_command(v, c)),
                _ => vel_opt,
            }
        } else {
            vel_opt
        };
        assert(eff == kb.velocities[i as int]);
        match (world.positions[i], eff) {
            (Some(p), Some(v)) => {
                let dx: i64 = match v.direction {
                    Direction::Left => -(v.speed as i64),
                    Direction::Right => v.speed as i64,
                    Direction::Up => 0,
                    Direction::Down => 0,
                };
                let dy: i64 = match v.direction {
                    Direction::Left => 0,
                    Direction::Right => 0,
                    Direction::Up => -(v.speed as i64),
                    Direction::Down => v.speed as i64,
                };
                let nx = p.0.x as i64 + dx;
                let ny = p.0.y as i64 + dy;
                if nx < i32::MIN as i64 || nx > i32::MAX as i64 || ny < i32::MIN as i64 || ny
                    > i32::MAX as i64 {
                    proof {
                        assert(!spec_move_fits(kb.positions[i as int]->0, kb.velocities[i as int]->0));
                        assert(!spec_physics_fits(kb));
                    }
                    return false;
                }
            },
            _ => {
            },
        }
        i = i + 1;
    }
    true
}

/// The fixed dependency graph of the three systems, run once per game
/// loop tick.
pub struct Dispatcher {
    pub keyboard: Keyboard,
    pub physics: Physics,
    pub animator: Animator,
}

impl Dispatcher {
    pub fn new() -> (d: Dispatcher) {
        Dispatcher { keyboard: Keyboard, physics: Physics, animator: Animator }
    }

    /// One tick: the input mapper first, then integration and
    /// animation selection over the velocities it produced. The
    /// caller must have checked that integration stays within `i32`
    /// coordinates; [`Dispatcher::dispatch_checked`] does so itself.
    pub fn dispatch(&mut self, world: &mut World, cmd: Option<MovementCommand>)
        requires
            old(world).inv(),
            spec_physics_fits(spec_keyboard(old(world)@, cmd)),
        ensures
            final(world).inv(),
            final(world)@ == spec_dispatch(old(world)@, cmd),
    {
        self.keyboard.run(world, cmd);
        self.physics.run(world);
        self.animator.run(world, cmd);
    }

    /// One tick, guarded: runs the systems only when integration
    /// stays within `i32` coordinates, and reports whether it did.
    /// When it did not, the store is left exactly as it was.
    pub fn dispatch_checked(&mut self, world: &mut World, cmd: Option<MovementCommand>) -> (ok:
        bool)
        requires
            old(world).inv(),
        ensures
            final(world).inv(),
            ok == spec_physics_fits(spec_keyboard(old(world)@, cmd)),
            ok ==> final(world)@ == spec_dispatch(old(world)@, cmd),
            !ok ==> *final(world) == *old(world),
    {
        if can_integrate(world, cmd) {
            self.dispatch(world, cmd);
            true
        } else {
            false
        }
    }
}

/// Law: the physics and animation systems commute — applied to the
/// same state, either order leaves the same state, so a concurrent
/// run within one tick is equivalent to a sequential one.
pub proof fn lemma_physics_animator_commute(w: WorldView, cmd: Option<MovementCommand>)
    ensures
        spec_animator(spec_physics(w), cmd) == spec_physics(spec_animator(w, cmd)),
{
    match cmd {
        None => {
            assert(spec_animator(spec_physics(w), None) =~= spec_physics(spec_animator(w, None)));
        },
        Some(c) => {
            let lhs = spec_animator(spec_physics(w), cmd);
            let rhs = spec_physics(spec_animator(w, cmd));
            assert(lhs.positions =~= rhs.positions);
            assert(lhs.animations =~= rhs.animations);
            assert(lhs.sprites =~= rhs.sprites);
            assert(lhs =~= rhs);
        },
    }
}

/// Law: with no command this tick, a full dispatch is pure
/// integration — every velocity, walk-cycle index and sprite is
/// exactly what it was before the tick.
pub proof fn lemma_absent_command_noop(w: WorldView)
    ensures
        spec_dispatch(w, None) == spec_physics(w),
        spec_dispatch(w, None).velocities == w.velocities,
        spec_dispatch(w, None).animations == w.animations,
        spec_dispatch(w, None).sprites == w.sprites,
        spec_dispatch(w, None).tags == w.tags,
{
}

/// Law: a `Stop` tick halts every keyboard-controlled entity — its
/// speed is zeroed before integration runs, so its position is
/// exactly what it was before the tick.
pub proof fn lemma_stop_halts_tagged_entities(w: WorldView, i: int)
    requires
        wf_world(w),
        0 <= i < w.len(),
        w.tags[i],
    ensures
        spec_dispatch(w, Some(MovementCommand::Stop)).positions[i] == w.positions[i],
{
}

/// Law: a tick preserves well-formedness — every stored velocity
/// keeps a non-negative speed, and every stored animation keeps its
/// four 3-entry frame lists and a walk-cycle index below 3.
pub proof fn lemma_dispatch_preserves_wf(w: WorldView, cmd: Option<MovementCommand>)
    requires
        wf_world(w),
    ensures
        wf_world(spec_dispatch(w, cmd)),
{
    let w1 = spec_keyboard(w, cmd);
    let w2 = spec_physics(w1);
    let w3 = spec_animator(w2, cmd);
    assert(wf_world(w1)) by {
        assert forall|i: int|
            0 <= i < w1.velocities.len() && #[trigger] w1.velocities[i] is Some implies
            wf_velocity(w1.velocities[i]->0) by {
            assert(w.velocities[i] is Some ==> wf_velocity(w.velocities[i]->0));
        }
    }
    assert(wf_world(w2));
    assert(wf_world(w3)) by {
        assert forall|i: int|
            0 <= i < w3.animations.len() && #[trigger] w3.animations[i] is Some implies
            wf_animation(w3.animations[i]->0) by {
            assert(w2.animations[i] is Some ==> wf_animation(
                w2.animations[i]->0,
            ));
        }
    }
}

} // verus!
