//! The uniform collision surface shared by every entity: a position, a
//! collision diameter, and the circle-overlap test between any two entities.

use vstd::prelude::*;
use crate::vec2::{Vec2, vec_ok, COORD_LIMIT};
use crate::asteroid::Asteroid;
use crate::missile::{Missile, MISSILE_SIZE};
use crate::spaceship::{Spaceship, SHIP_SIZE};

verus! {

/// Squared Euclidean distance between two points.
pub open spec fn dist_sq(a: Vec2, b: Vec2) -> int {
    (a.x - b.x) * (a.x - b.x) + (a.y - b.y) * (a.y - b.y)
}

/// Two entities collide iff the distance between their centres is strictly
/// below the sum of their radii.  Radii are half the diameters `sa` and
/// `sb`, so the test is stated exactly over integers by comparing four
/// times the squared distance with the squared diameter sum.
pub open spec fn collides(pa: Vec2, sa: int, pb: Vec2, sb: int) -> bool {
    4 * dist_sq(pa, pb) < (sa + sb) * (sa + sb)
}

/// Every collidable entity exposes its position and its collision diameter,
/// and tests overlap with any other such entity by the one shared formula.
pub trait StellarObject: Sized {
    spec fn spec_position(&self) -> Vec2;

    spec fn spec_size(&self) -> int;

    fn get_position(&self) -> (p: Vec2)
        ensures
            p == self.spec_position(),
    ;

    fn get_size(&self) -> (s: i64)
        ensures
            s == self.spec_size(),
    ;
}

/// The one collision test, shared by every entity pair.
pub fn collide<A: StellarObject, B: StellarObject>(a: &A, b: &B) -> (r: bool)
    requires
        vec_ok(a.spec_position()),
        vec_ok(b.spec_position()),
        0 < a.spec_size() <= 200,
        0 < b.spec_size() <= 200,
    ensures
        r == collides(a.spec_position(), a.spec_size(), b.spec_position(), b.spec_size()),
{
    circle_overlap(a.get_position(), a.get_size(), b.get_position(), b.get_size())
}

impl StellarObject for Asteroid {
    open spec fn spec_position(&self) -> Vec2 {
        self.position
    }

    open spec fn spec_size(&self) -> int {
        self.size.spec_diameter()
    }

    fn get_position(&self) -> Vec2 {
        self.position
    }

    fn get_size(&self) -> i64 {
        self.size.diameter()
    }
}

impl StellarObject for Missile {
    open spec fn spec_position(&self) -> Vec2 {
        self.position
    }

    open spec fn spec_size(&self) -> int {
        MISSILE_SIZE as int
    }

    fn get_position(&self) -> Vec2 {
        self.position
    }

    fn get_size(&self) -> i64 {
        MISSILE_SIZE
    }
}

impl StellarObject for Spaceship {
    open spec fn spec_position(&self) -> Vec2 {
        self.position
    }

    open spec fn spec_size(&self) -> int {
        SHIP_SIZE as int
    }

    fn get_position(&self) -> Vec2 {
        self.position
    }

    fn get_size(&self) -> i64 {
        SHIP_SIZE
    }
}

pub proof fn lemma_square_bound(v: int, b: int)
    requires
        -b <= v <= b,
        0 <= b,
    ensures
        0 <= v * v <= b * b,
{
    assert(0 <= v * v <= b * b) by (nonlinear_arith)
        requires
            -b <= v <= b,
            0 <= b,
    ;
}

/// The circle-overlap formula on plain values.
pub fn circle_overlap(pa: Vec2, sa: i64, pb: Vec2, sb: i64) -> (r: bool)
    requires
        vec_ok(pa),
        vec_ok(pb),
        0 < sa <= 200,
        0 < sb <= 200,
    ensures
        r == collides(pa, sa as int, pb, sb as int),
{
    let dx = pa.x - pb.x;
    let dy = pa.y - pb.y;
    proof {
        lemma_square_bound(dx as int, 2 * COORD_LIMIT as int);
        lemma_square_bound(dy as int, 2 * COORD_LIMIT as int);
    }
    let d2 = dx * dx + dy * dy;
    let s = sa + sb;
    proof {
        lemma_square_bound(s as int, 400);
    }
    4 * d2 < s * s
}

/// The collision predicate is symmetric: which entity is asked first does
/// not matter, since the distance and the radius sum are symmetric.
pub proof fn lemma_collides_symmetric(pa: Vec2, sa: int, pb: Vec2, sb: int)
    ensures
        collides(pa, sa, pb, sb) == collides(pb, sb, pa, sa),
{
    assert(dist_sq(pa, pb) == dist_sq(pb, pa)) by (nonlinear_arith);
    assert((sa + sb) * (sa + sb) == (sb + sa) * (sb + sa)) by (nonlinear_arith);
}

/// The overlap test is strict: two entities whose distance equals the sum
/// of their radii (four times the squared distance equals the squared
/// diameter sum) do not collide, while any distance below the threshold
/// does.
pub proof fn lemma_collides_threshold(pa: Vec2, sa: int, pb: Vec2, sb: int)
    ensures
        4 * dist_sq(pa, pb) == (sa + sb) * (sa + sb) ==> !collides(pa, sa, pb, sb),
        4 * dist_sq(pa, pb) < (sa + sb) * (sa + sb) ==> collides(pa, sa, pb, sb),
{
}

} // verus!
