//! The component store: all entities and their components, owned in
//! one place and addressed by entity id.
//!
//! An entity is an index; each component type lives in its own dense
//! column, one optional slot per entity. Systems mutate component
//! values only; entities are created at setup and never removed in
//! scope, so the columns always have one slot per entity.

use vstd::prelude::*;

use crate::components::KeyboardControlled;
use crate::components::MovementAnimation;
use crate::components::Position;
use crate::components::Sprite;
use crate::components::Velocity;
use crate::components::wf_animation;
use crate::components::wf_velocity;

verus! {

/// Mathematical model of a [`World`]: one sequence per component
/// column, each with one slot per entity.
#[verifier::ext_equal]
pub ghost struct WorldView {
    pub positions: Seq<Option<Position>>,
    pub velocities: Seq<Option<Velocity>>,
    pub sprites: Seq<Option<Sprite>>,
    pub animations: Seq<Option<MovementAnimation>>,
    pub tags: Seq<bool>,
}

impl WorldView {
    /// Number of entities the store holds.
    pub open spec fn len(self) -> int {
        self.positions.len() as int
    }
}

/// All columns have one slot per entity, and every stored component
/// satisfies its own well-formedness condition.
pub open spec fn wf_world(w: WorldView) -> bool {
    &&& w.velocities.len() == w.positions.len()
    &&& w.sprites.len() == w.positions.len()
    &&& w.animations.len() == w.positions.len()
    &&& w.tags.len() == w.positions.len()
    &&& forall|i: int|
        0 <= i < w.velocities.len() ==> (#[trigger] w.velocities[i] matches Some(v)
            ==> wf_velocity(v))
    &&& forall|i: int|
        0 <= i < w.animations.len() ==> (#[trigger] w.animations[i] matches Some(a)
            ==> wf_animation(a))
}

/// The component store.
pub struct World {
    pub positions: Vec<Option<Position>>,
    pub velocities: Vec<Option<Velocity>>,
    pub sprites: Vec<Option<Sprite>>,
    pub animations: Vec<Option<MovementAnimation>>,
    pub tags: Vec<bool>,
}

impl View for World {
    type V = WorldView;

    open spec fn view(&self) -> WorldView {
        WorldView {
            positions: self.positions@,
            velocities: self.velocities@,
            sprites: self.sprites@,
            animations: self.animations@,
            tags: self.tags@,
        }
    }
}

impl World {
    /// The store's invariant, established by [`World::new`] and
    /// preserved by every mutating operation.
    pub open spec fn inv(&self) -> bool {
        wf_world(self@)
    }

    /// An empty store: no entities yet.
    pub fn new() -> (w: World)
        ensures
            w.inv(),
            w@.len() == 0,
    {
        World {
            positions: Vec::new(),
            velocities: Vec::new(),
            sprites: Vec::new(),
            animations: Vec::new(),
            tags: Vec::new(),
        }
    }

    /// Number of entities in the store.
    pub fn num_entities(&self) -> (n: usize)
        requires
            self.inv(),
        ensures
            n == self@.len(),
    {
        self.positions.len()
    }

    /// A fresh entity with no components attached. Its id is the
    /// number of entities created before it.
    pub fn create_entity(&mut self) -> (e: usize)
        requires
            old(self).inv(),
        ensures
            final(self).inv(),
            e == old(self)@.len(),
            final(self)@.positions == old(self)@.positions.push(None),
            final(self)@.velocities == old(self)@.velocities.push(None),
            final(self)@.sprites == old(self)@.sprites.push(None),
            final(self)@.animations == old(self)@.animations.push(None),
            final(self)@.tags == old(self)@.tags.push(false),
    {
        let e = self.positions.len();
        self.positions.push(None);
        self.velocities.push(None);
        self.sprites.push(None);
        self.animations.push(None);
        self.tags.push(false);
        e
    }

    /// Attach (or replace) the position of entity `e`.
    pub fn attach_position(&mut self, e: usize, p: Position)
        requires
            old(self).inv(),
            e < old(self)@.len(),
        ensures
            final(self).inv(),
            final(self)@ == (WorldView {
                positions: old(self)@.positions.update(e as int, Some(p)),
                ..old(self)@
            }),
    {
        self.positions.set(e, Some(p));
    }

    /// Attach (or replace) the velocity of entity `e`.
    pub fn attach_velocity(&mut self, e: usize, v: Velocity)
        requires
            old(self).inv(),
            e < old(self)@.len(),
            wf_velocity(v),
        ensures
            final(self).inv(),
            final(self)@ == (WorldView {
                velocities: old(self)@.velocities.update(e as int, Some(v)),
                ..old(self)@
            }),
    {
        self.velocities.set(e, Some(v));
    }

    /// Attach (or replace) the visible sprite of entity `e`.
    pub fn attach_sprite(&mut self, e: usize, s: Sprite)
        requires
            old(self).inv(),
            e < old(self)@.len(),
        ensures
            final(self).inv(),
            final(self)@ == (WorldView {
                sprites: old(self)@.sprites.update(e as int, Some(s)),
                ..old(self)@
            }),
    {
        self.sprites.set(e, Some(s));
    }

    /// Attach (or replace) the walk-cycle animation of entity `e`.
    pub fn attach_animation(&mut self, e: usize, a: MovementAnimation)
        requires
            old(self).inv(),
            e < old(self)@.len(),
            wf_animation(a),
        ensures
            final(self).inv(),
            final(self)@ == (WorldView {
                animations: old(self)@.animations.update(e as int, Some(a)),
                ..old(self)@
            }),
    {
        self.animations.set(e, Some(a));
    }

    /// Mark entity `e` as reacting to the frame's movement command.
    pub fn attach_keyboard_controlled(&mut self, e: usize, _tag: KeyboardControlled)
        requires
            old(self).inv(),
            e < old(self)@.len(),
        ensures
            final(self).inv(),
            final(self)@ == (WorldView { tags: old(self)@.tags.update(e as int, true), ..old(self)@ }),
    {
        self.tags.set(e, true);
    }

    /// Read-only access for the renderer: the position of entity `e`.
    pub fn position_of(&self, e: usize) -> (p: Option<Position>)
        requires
            self.inv(),
            e < self@.len(),
        ensures
            p == self@.positions[e as int],
    {
        self.positions[e]
    }

    /// Read-only access for the renderer: the visible sprite of
    /// entity `e`.
    pub fn sprite_of(&self, e: usize) -> (s: Option<Sprite>)
        requires
            self.inv(),
            e < self@.len(),
        ensures
            s == self@.sprites[e as int],
    {
        self.sprites[e]
    }

    /// The velocity of entity `e`.
    pub fn velocity_of(&self, e: usize) -> (v: Option<Velocity>)
        requires
            self.inv(),
            e < self@.len(),
        ensures
            v == self@.velocities[e as int],
    {
        self.velocities[e]
    }

    /// End-of-tick maintenance: applies deferred structural changes.
    /// No system defers any in scope, so the store is left untouched;
    /// the operation exists so the dispatch contract has a place for
    /// them.
    pub fn maintain(&mut self)
        requires
            old(self).inv(),
        ensures
            final(self).inv(),
            *final(self) == *old(self),
    {
    }
}

} // verus!
