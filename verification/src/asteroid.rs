//! Asteroids: creation near a screen edge, movement with wrap-around, and
//! splitting into two smaller children on destruction.

use vstd::prelude::*;
use crate::vec2::{Vec2, spec_add, vec_ok, dim_ok, COORD_LIMIT, DIM_LIMIT};
use crate::screen::{spec_bound_to, spec_bound_pos};

verus! {

/// The three size tiers an asteroid can have; no other size ever occurs.
#[derive(Clone, Copy, PartialEq, Eq, Structural, Debug)]
pub enum Size {
    Large,
    Medium,
    Small,
}

impl Size {
    /// Collision diameter of the tier; the radius is half of it.
    pub open spec fn spec_diameter(self) -> int {
        match self {
            Size::Large => 60,
            Size::Medium => 30,
            Size::Small => 10,
        }
    }

    pub fn diameter(self) -> (d: i64)
        ensures
            d == self.spec_diameter(),
    {
        match self {
            Size::Large => 60,
            Size::Medium => 30,
            Size::Small => 10,
        }
    }
}

/// The tier one below the given one; splitting a `Small` asteroid yields
/// no children, so its image here is never used.
pub open spec fn next_size(s: Size) -> Size {
    match s {
        Size::Large => Size::Medium,
        Size::Medium => Size::Small,
        Size::Small => Size::Small,
    }
}

/// A velocity drawn at creation: one unit step in one of the eight compass
/// directions, never the zero vector.
pub open spec fn unit_box(v: Vec2) -> bool {
    -1 <= v.x <= 1 && -1 <= v.y <= 1 && !(v.x == 0 && v.y == 0)
}

/// An asteroid on the playing field.
#[derive(Clone, Copy, PartialEq, Eq, Structural, Debug)]
pub struct Asteroid {
    /// Centre of the asteroid.
    pub position: Vec2,
    /// Displacement applied each frame.
    pub speed: Vec2,
    /// Size tier.
    pub size: Size,
}

/// Positions and sizes of the children that splitting an asteroid yields:
/// none for a `Small` one, otherwise two at the next-smaller tier, offset
/// by the fixed diagonals `(+20, +20)` and `(-20, -20)`.
pub open spec fn split_shape(a: Asteroid) -> Seq<(Vec2, Size)> {
    if a.size == Size::Small {
        Seq::empty()
    } else {
        seq![
            (spec_add(a.position, Vec2 { x: 20, y: 20 }), next_size(a.size)),
            (spec_add(a.position, Vec2 { x: -20i64, y: -20i64 }), next_size(a.size)),
        ]
    }
}

/// Whether a run of freshly spawned asteroids has exactly the given
/// positions and sizes, each with a freshly drawn unit-box velocity.
pub open spec fn matches_shapes(ns: Seq<Asteroid>, shapes: Seq<(Vec2, Size)>) -> bool {
    &&& ns.len() == shapes.len()
    &&& forall|k: int|
        0 <= k < ns.len() ==> {
            &&& (#[trigger] ns[k]).position == shapes[k].0
            &&& ns[k].size == shapes[k].1
            &&& unit_box(ns[k].speed)
        }
}

/// One frame of asteroid motion: the position advances by the velocity
/// and wraps into the viewport; velocity and size never change.
pub open spec fn asteroid_step(a: Asteroid, width: int, height: int) -> Asteroid {
    Asteroid {
        position: spec_bound_pos(spec_add(a.position, a.speed), width, height),
        speed: a.speed,
        size: a.size,
    }
}

/// A position within half to one large diameter of one of the four screen
/// edges: fresh asteroids spawn there, never on the player in the screen
/// centre.
pub open spec fn near_screen_edge(p: Vec2, width: int, height: int) -> bool {
    ||| 30 <= p.x <= 60
    ||| width - 60 <= p.x <= width - 30
    ||| 30 <= p.y <= 60
    ||| height - 60 <= p.y <= height - 30
}

/// Relies on `rand::thread_rng` and `rand::Rng::gen_range`: a sample from
/// the non-empty inclusive range `lo..=hi` lies within that range.
#[verifier::external_body]
fn random_in_range(lo: i64, hi: i64) -> (r: i64)
    requires
        lo <= hi,
    ensures
        lo <= r <= hi,
{
    rand::Rng::gen_range(&mut rand::thread_rng(), lo..=hi)
}

impl Asteroid {
    /// Creates a large asteroid with a random position near a screen edge
    /// and a random unit-box velocity.  The viewport dimensions are
    /// sampled by the caller.
    pub fn new(width: i64, height: i64) -> (a: Asteroid)
        requires
            60 <= width <= DIM_LIMIT,
            60 <= height <= DIM_LIMIT,
        ensures
            a.size == Size::Large,
            0 <= a.position.x <= width,
            0 <= a.position.y <= height,
            near_screen_edge(a.position, width as int, height as int),
            unit_box(a.speed),
    {
        Asteroid {
            position: Self::new_alea_pos(width, height),
            speed: Self::new_alea_speed(),
            size: Size::Large,
        }
    }

    /// Creates an asteroid of the given tier at the given position, with a
    /// random unit-box velocity.
    pub fn with_size(size: Size, position: Vec2) -> (a: Asteroid)
        ensures
            a.size == size,
            a.position == position,
            unit_box(a.speed),
    {
        Asteroid { position, speed: Self::new_alea_speed(), size }
    }

    pub fn get_position(&self) -> (p: Vec2)
        ensures
            p == self.position,
    {
        self.position
    }

    pub fn get_size(&self) -> (s: Size)
        ensures
            s == self.size,
    {
        self.size
    }

    /// Advances the asteroid by its velocity, wraps the result into the
    /// viewport, and returns the new position.
    pub fn move_object(&mut self, width: i64, height: i64) -> (p: Vec2)
        requires
            vec_ok(old(self).position),
            vec_ok(old(self).speed),
            dim_ok(width as int),
            dim_ok(height as int),
        ensures
            final(self).position == spec_bound_pos(
                spec_add(old(self).position, old(self).speed),
                width as int,
                height as int,
            ),
            final(self).speed == old(self).speed,
            final(self).size == old(self).size,
            p == final(self).position,
            *final(self) == asteroid_step(*old(self), width as int, height as int),
    {
        self.position = self.position.plus(self.speed);
        self.position = Self::bound_pos(self.position, width, height);
        self.position
    }

    /// Splits the asteroid: no children for a `Small` one, otherwise
    /// exactly two children one tier smaller, at the fixed diagonal
    /// offsets from the parent's position, each with an independent random
    /// velocity.  The parent itself is left untouched; removing it from
    /// the live set is the caller's business.
    pub fn split(&self) -> (children: Vec<Asteroid>)
        requires
            vec_ok(self.position),
        ensures
            matches_shapes(children@, split_shape(*self)),
            self.size == Size::Small ==> children@.len() == 0,
            self.size != Size::Small ==> children@.len() == 2,
    {
        let new_size = match self.size {
            Size::Large => Size::Medium,
            Size::Medium => Size::Small,
            Size::Small => {
                return Vec::new();
            },
        };
        let mut children: Vec<Asteroid> = Vec::new();
        children.push(Asteroid::with_size(new_size, self.position.plus(Vec2::new(20, 20))));
        children.push(Asteroid::with_size(new_size, self.position.plus(Vec2::new(-20, -20))));
        children
    }

    /// A random position at most one large diameter away from one of the
    /// four screen edges, so a fresh asteroid never appears on the player
    /// in the screen centre.
    fn new_alea_pos(width: i64, height: i64) -> (p: Vec2)
        requires
            60 <= width <= DIM_LIMIT,
            60 <= height <= DIM_LIMIT,
        ensures
            0 <= p.x <= width,
            0 <= p.y <= height,
            near_screen_edge(p, width as int, height as int),
    {
        let nearpos = random_in_range(30, 60);
        let nearside = random_in_range(1, 4);
        let xpos = if nearside == 2 {
            width - nearpos
        } else if nearside == 4 {
            nearpos
        } else {
            random_in_range(0, width)
        };
        let ypos = if nearside == 1 {
            nearpos
        } else if nearside == 3 {
            height - nearpos
        } else {
            random_in_range(0, height)
        };
        Vec2::new(xpos, ypos)
    }

    /// A random direction: one of the eight unit steps of the grid.
    fn new_alea_speed() -> (v: Vec2)
        ensures
            unit_box(v),
    {
        let d = random_in_range(0, 7);
        if d == 0 {
            Vec2::new(1, 0)
        } else if d == 1 {
            Vec2::new(1, 1)
        } else if d == 2 {
            Vec2::new(0, 1)
        } else if d == 3 {
            Vec2::new(-1, 1)
        } else if d == 4 {
            Vec2::new(-1, 0)
        } else if d == 5 {
            Vec2::new(-1, -1)
        } else if d == 6 {
            Vec2::new(0, -1)
        } else {
            Vec2::new(1, -1)
        }
    }

    /// Wraps both axes of a position into the viewport.
    fn bound_pos(pos: Vec2, width: i64, height: i64) -> (r: Vec2)
        requires
            -2 * COORD_LIMIT <= pos.x <= 2 * COORD_LIMIT,
            -2 * COORD_LIMIT <= pos.y <= 2 * COORD_LIMIT,
            dim_ok(width as int),
            dim_ok(height as int),
        ensures
            r == spec_bound_pos(pos, width as int, height as int),
    {
        Vec2::new(Self::bound_to(pos.x, width), Self::bound_to(pos.y, height))
    }

    /// Wraps one axis coordinate into `[0, max]`: an in-range coordinate
    /// is left as it is, a negative one re-reflects past the far edge to
    /// `max - coord`, one beyond `max` comes back to `coord - max`.
    pub fn bound_to(coord: i64, max: i64) -> (r: i64)
        requires
            -2 * COORD_LIMIT <= coord <= 2 * COORD_LIMIT,
            dim_ok(max as int),
        ensures
            r == spec_bound_to(coord as int, max as int),
            0 <= coord <= max ==> r == coord,
    {
        if coord < 0 {
            max - coord
        } else if coord > max {
            coord - max
        } else {
            coord
        }
    }
}

} // verus!
