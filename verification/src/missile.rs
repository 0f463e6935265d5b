//! Missiles fired by the spaceship: straight-line motion, and deactivation
//! the moment the missile leaves the viewport or hits an asteroid.

use vstd::prelude::*;
use crate::vec2::{Vec2, spec_add, vec_ok, dim_ok};
use crate::screen::spec_in_bounds;

verus! {

/// Collision diameter of a missile.
pub const MISSILE_SIZE: i64 = 5;

/// Speed of a freshly fired missile, in grid units per frame.
pub const MISSILE_SPEED: i64 = 5;

/// A missile in flight or already spent.
#[derive(Clone, Copy, PartialEq, Eq, Structural, Debug)]
pub struct Missile {
    /// Centre of the missile.
    pub position: Vec2,
    /// Displacement applied each frame while active.
    pub velocity: Vec2,
    /// An inactive missile never moves or collides again.
    pub active: bool,
}

/// One frame of missile motion: an active missile advances by its velocity
/// and stays active exactly while it remains inside the viewport; an
/// inactive missile is left untouched.
pub open spec fn missile_step(m: Missile, width: int, height: int) -> Missile {
    if m.active {
        let p = spec_add(m.position, m.velocity);
        Missile { position: p, velocity: m.velocity, active: spec_in_bounds(p, width, height) }
    } else {
        m
    }
}

impl Missile {
    /// Creates an active missile at the firing position; the caller
    /// supplies the velocity it derived from the ship's heading.
    pub fn new(position: Vec2, velocity: Vec2) -> (m: Missile)
        ensures
            m.position == position,
            m.velocity == velocity,
            m.active,
    {
        Missile { position, velocity, active: true }
    }

    /// Advances the missile one frame, per `missile_step`.
    pub fn update(&mut self, width: i64, height: i64)
        requires
            old(self).active ==> vec_ok(old(self).position),
            old(self).active ==> vec_ok(old(self).velocity),
            dim_ok(width as int),
            dim_ok(height as int),
        ensures
            *final(self) == missile_step(*old(self), width as int, height as int),
    {
        if self.active {
            self.position = self.position.plus(self.velocity);
            self.active = Self::bound_pos(self.position, width, height);
        }
    }

    /// Marks the missile spent, for example after it hit a target.
    pub fn deactivate(&mut self)
        ensures
            final(self).position == old(self).position,
            final(self).velocity == old(self).velocity,
            !final(self).active,
    {
        self.active = false;
    }

    pub fn is_active(&self) -> (b: bool)
        ensures
            b == self.active,
    {
        self.active
    }

    pub fn get_position(&self) -> (p: Vec2)
        ensures
            p == self.position,
    {
        self.position
    }

    /// Whether a position still lies inside the viewport.
    fn bound_pos(pos: Vec2, width: i64, height: i64) -> (r: bool)
        ensures
            r == spec_in_bounds(pos, width as int, height as int),
    {
        let x = !(pos.x < 0 || pos.x > width);
        let y = !(pos.y < 0 || pos.y > height);
        x && y
    }
}

/// Deactivation is permanent: a frame of motion leaves an inactive missile
/// exactly as it is, so it never moves again.
pub proof fn lemma_missile_deactivation_permanent(m: Missile, width: int, height: int)
    requires
        !m.active,
    ensures
        missile_step(m, width, height) == m,
{
}

} // verus!
