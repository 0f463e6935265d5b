//! The player's spaceship: inertial drift with multiplicative drag,
//! wrap-around motion, and rotation in discrete steps.

use vstd::prelude::*;
use crate::vec2::{Vec2, spec_add, vec_ok, dim_ok, COORD_LIMIT};
use crate::screen::{spec_bound_to, spec_bound_pos};

verus! {

/// Collision diameter of the spaceship.
pub const SHIP_SIZE: i64 = 60;

/// The player's ship.  There is one per round; a collision ends the round
/// rather than destroying the value.
#[derive(Clone, Copy, PartialEq, Eq, Structural, Debug)]
pub struct Spaceship {
    /// Centre of the ship.
    pub position: Vec2,
    /// Accumulated, decaying velocity.
    pub velocity: Vec2,
    /// Heading, counted in rotation steps; the caller turns it into a
    /// direction vector, which is a trigonometric concern.
    pub rotation: i64,
    /// Whether thrust is applied this frame.
    pub push: bool,
}

/// Multiplicative drag on one velocity component: 99/100 of it, rounded
/// towards zero.  Applied every frame whether or not thrust is on.
pub open spec fn spec_drag1(v: int) -> int {
    if v >= 0 {
        (v * 99) / 100
    } else {
        -((-v * 99) / 100)
    }
}

pub open spec fn spec_drag(v: Vec2) -> Vec2 {
    Vec2 { x: spec_drag1(v.x as int) as i64, y: spec_drag1(v.y as int) as i64 }
}

/// One frame of ship motion: thrust (if pushing) accumulates into the
/// velocity, the position advances by the new velocity and wraps into the
/// viewport, and drag then decays the velocity.
pub open spec fn ship_step(s: Spaceship, thrust: Vec2, width: int, height: int) -> Spaceship {
    let v1 = if s.push {
        spec_add(s.velocity, thrust)
    } else {
        s.velocity
    };
    Spaceship {
        position: spec_bound_pos(spec_add(s.position, v1), width, height),
        velocity: spec_drag(v1),
        rotation: s.rotation,
        push: s.push,
    }
}

impl Spaceship {
    /// A fresh ship, centred on the screen, at rest, heading in the zero
    /// direction, not thrusting.
    pub fn new(width: i64, height: i64) -> (s: Spaceship)
        requires
            dim_ok(width as int),
            dim_ok(height as int),
        ensures
            s.position.x == width / 2,
            s.position.y == height / 2,
            s.velocity == (Vec2 { x: 0i64, y: 0i64 }),
            s.rotation == 0,
            !s.push,
    {
        Spaceship {
            position: Vec2::new(width / 2, height / 2),
            velocity: Vec2::new(0, 0),
            rotation: 0,
            push: false,
        }
    }

    /// Advances the ship one frame, per `ship_step`.  The thrust vector is
    /// the acceleration the caller derived from the current heading; it is
    /// only applied while `push` is set.
    pub fn update(&mut self, thrust: Vec2, width: i64, height: i64)
        requires
            vec_ok(old(self).position),
            vec_ok(old(self).velocity),
            vec_ok(thrust),
            dim_ok(width as int),
            dim_ok(height as int),
        ensures
            *final(self) == ship_step(*old(self), thrust, width as int, height as int),
    {
        if self.push {
            self.velocity = self.velocity.plus(thrust);
        }
        self.position = Vec2::new(self.position.x + self.velocity.x, self.position.y + self.velocity.y);
        self.position = Self::bound_pos(self.position, width, height);
        self.velocity = Vec2::new(Self::drag1(self.velocity.x), Self::drag1(self.velocity.y));
    }

    pub fn get_position(&self) -> (p: Vec2)
        ensures
            p == self.position,
    {
        self.position
    }

    /// The heading, in rotation steps.
    pub fn get_direction(&self) -> (r: i64)
        ensures
            r == self.rotation,
    {
        self.rotation
    }

    /// Switches thrust on or off for the coming frames.
    pub fn set_push(&mut self, push: bool)
        ensures
            final(self).position == old(self).position,
            final(self).velocity == old(self).velocity,
            final(self).rotation == old(self).rotation,
            final(self).push == push,
    {
        self.push = push;
    }

    /// Turns the heading one step to the left.
    pub fn rotate_left(&mut self)
        requires
            old(self).rotation > i64::MIN,
        ensures
            final(self).rotation == old(self).rotation - 1,
            final(self).position == old(self).position,
            final(self).velocity == old(self).velocity,
            final(self).push == old(self).push,
    {
        self.rotation = self.rotation - 1;
    }

    /// Turns the heading one step to the right.
    pub fn rotate_right(&mut self)
        requires
            old(self).rotation < i64::MAX,
        ensures
            final(self).rotation == old(self).rotation + 1,
            final(self).position == old(self).position,
            final(self).velocity == old(self).velocity,
            final(self).push == old(self).push,
    {
        self.rotation = self.rotation + 1;
    }

    /// One velocity component after drag.
    fn drag1(v: i64) -> (r: i64)
        requires
            -2 * COORD_LIMIT <= v <= 2 * COORD_LIMIT,
        ensures
            r == spec_drag1(v as int),
    {
        if v >= 0 {
            ((v as u64 * 99) / 100) as i64
        } else {
            -(((-v) as u64 * 99 / 100) as i64)
        }
    }

    /// Wraps both axes of a position into the viewport.
    fn bound_pos(pos: Vec2, width: i64, height: i64) -> (r: Vec2)
        requires
            -3 * COORD_LIMIT <= pos.x <= 3 * COORD_LIMIT,
            -3 * COORD_LIMIT <= pos.y <= 3 * COORD_LIMIT,
            dim_ok(width as int),
            dim_ok(height as int),
        ensures
            r == spec_bound_pos(pos, width as int, height as int),
    {
        Vec2::new(Self::bound_to(pos.x, width), Self::bound_to(pos.y, height))
    }

    /// Wraps one axis coordinate into `[0, max]`, by the same rule the
    /// asteroids use.
    pub fn bound_to(coord: i64, max: i64) -> (r: i64)
        requires
            -3 * COORD_LIMIT <= coord <= 3 * COORD_LIMIT,
            dim_ok(max as int),
        ensures
            r == spec_bound_to(coord as int, max as int),
            0 <= coord <= max ==> r == coord,
    {
        if coord < 0 {
            max - coord
        } else if coord > max {
            coord - max
        } else {
            coord
        }
    }
}

} // verus!
