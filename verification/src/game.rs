//! The per-frame orchestrator: motion updates, the three collision
//! passes, deferred removal, and the terminal round signals.

use vstd::prelude::*;
use crate::vec2::{Vec2, vec_ok, dim_ok};
use crate::asteroid::{Asteroid, Size, split_shape, matches_shapes, unit_box, asteroid_step};
use crate::missile::{Missile, missile_step, MISSILE_SIZE};
use crate::spaceship::{Spaceship, ship_step, SHIP_SIZE};
use crate::stellarobject::{collides, collide};

verus! {

/// Collision between two asteroids, over the model values.
pub open spec fn ast_collides(a: Asteroid, b: Asteroid) -> bool {
    collides(a.position, a.size.spec_diameter(), b.position, b.size.spec_diameter())
}

/// Collision between an asteroid and the ship.
pub open spec fn ship_hits(a: Asteroid, ship: Spaceship) -> bool {
    collides(a.position, a.size.spec_diameter(), ship.position, SHIP_SIZE as int)
}

/// Collision between a missile and an asteroid.
pub open spec fn missile_hits(m: Missile, a: Asteroid) -> bool {
    collides(m.position, MISSILE_SIZE as int, a.position, a.size.spec_diameter())
}

/// The first index `j >= j0` whose asteroid collides with asteroid `i`,
/// if any: the asteroid pass handles at most one partner per `i` and
/// stops scanning at the first hit.
pub open spec fn aa_first_hit(s: Seq<Asteroid>, i: int, j0: int) -> Option<int>
    decreases s.len() - j0,
{
    if j0 >= s.len() {
        None
    } else if ast_collides(s[i], s[j0]) {
        Some(j0)
    } else {
        aa_first_hit(s, i, j0 + 1)
    }
}

/// Removal indices contributed by row `i` of the asteroid pass: on a hit
/// between equal tiers both asteroids go, otherwise only the smaller one.
pub open spec fn aa_contrib_rm(s: Seq<Asteroid>, i: int) -> Seq<usize> {
    match aa_first_hit(s, i, i + 1) {
        Option::None => Seq::empty(),
        Option::Some(j) => {
            if s[i].size == s[j].size {
                seq![i as usize, j as usize]
            } else if s[i].size.spec_diameter() < s[j].size.spec_diameter() {
                seq![i as usize]
            } else {
                seq![j as usize]
            }
        },
    }
}

/// Child shapes contributed by row `i` of the asteroid pass: each removed
/// asteroid also splits.
pub open spec fn aa_contrib_new(s: Seq<Asteroid>, i: int) -> Seq<(Vec2, Size)> {
    match aa_first_hit(s, i, i + 1) {
        Option::None => Seq::empty(),
        Option::Some(j) => {
            if s[i].size == s[j].size {
                split_shape(s[i]) + split_shape(s[j])
            } else if s[i].size.spec_diameter() < s[j].size.spec_diameter() {
                split_shape(s[i])
            } else {
                split_shape(s[j])
            }
        },
    }
}

/// Removal indices of the asteroid pass, accumulated over rows `0..n`.
pub open spec fn aa_removals(s: Seq<Asteroid>, n: int) -> Seq<usize>
    decreases n,
{
    if n <= 0 {
        Seq::empty()
    } else {
        aa_removals(s, n - 1) + aa_contrib_rm(s, n - 1)
    }
}

/// Child shapes of the asteroid pass, accumulated over rows `0..n`.
pub open spec fn aa_spawns(s: Seq<Asteroid>, n: int) -> Seq<(Vec2, Size)>
    decreases n,
{
    if n <= 0 {
        Seq::empty()
    } else {
        aa_spawns(s, n - 1) + aa_contrib_new(s, n - 1)
    }
}

/// All positions in a list of asteroids are within the coordinate range
/// the collision test needs.
pub open spec fn asteroids_ok(s: Seq<Asteroid>) -> bool {
    forall|i: int| 0 <= i < s.len() ==> vec_ok((#[trigger] s[i]).position)
}

proof fn lemma_matches_shapes_concat(
    n1: Seq<Asteroid>,
    s1: Seq<(Vec2, Size)>,
    n2: Seq<Asteroid>,
    s2: Seq<(Vec2, Size)>,
)
    requires
        matches_shapes(n1, s1),
        matches_shapes(n2, s2),
    ensures
        matches_shapes(n1 + n2, s1 + s2),
{
    assert forall|k: int| 0 <= k < (n1 + n2).len() implies {
        &&& ((n1 + n2)[k]).position == (s1 + s2)[k].0
        &&& (n1 + n2)[k].size == (s1 + s2)[k].1
        &&& unit_box((n1 + n2)[k].speed)
    } by {
        if k < n1.len() {
            assert((n1 + n2)[k] == n1[k]);
            assert((s1 + s2)[k] == s1[k]);
        } else {
            assert((n1 + n2)[k] == n2[k - n1.len()]);
            assert((s1 + s2)[k] == s2[k - s1.len()]);
        }
    }
}

/// Appends a copy of every element of `src` to `dst`.
fn append_all(dst: &mut Vec<Asteroid>, src: &Vec<Asteroid>)
    ensures
        final(dst)@ == old(dst)@ + src@,
{
    let mut k: usize = 0;
    while k < src.len()
        invariant
            k <= src.len(),
            dst@ == old(dst)@ + src@.take(k as int),
        decreases src.len() - k,
    {
        dst.push(src[k]);
        proof {
            assert(old(dst)@ + src@.take(k as int) + seq![src@[k as int]] =~= old(dst)@
                + src@.take(k + 1 as int));
        }
        k = k + 1;
    }
    proof {
        assert(src@.take(src@.len() as int) =~= src@);
    }
}

/// The first asteroid after `i` that collides with asteroid `i`, if any.
fn first_collision_from(asteroids: &Vec<Asteroid>, i: usize) -> (r: Option<usize>)
    requires
        asteroids_ok(asteroids@),
        i < asteroids@.len(),
    ensures
        match r {
            Option::None => aa_first_hit(asteroids@, i as int, i + 1) == Option::<int>::None,
            Option::Some(j) => i < j < asteroids@.len() && aa_first_hit(
                asteroids@,
                i as int,
                i + 1,
            ) == Option::Some(j as int),
        },
{
    let ghost s = asteroids@;
    let n = asteroids.len();
    let mut j = i + 1;
    while j < n
        invariant
            asteroids_ok(s),
            s == asteroids@,
            n == s.len(),
            i < s.len(),
            i < j <= n,
            aa_first_hit(s, i as int, i + 1) == aa_first_hit(s, i as int, j as int),
        decreases n - j,
    {
        if collide(&asteroids[i], &asteroids[j]) {
            return Some(j);
        }
        j = j + 1;
    }
    None
}

/// The asteroid–asteroid pass.  For each asteroid `i`, the first partner
/// `j > i` that overlaps it is resolved: equal tiers destroy each other
/// and both split, unequal tiers destroy only the smaller, which splits.
/// Only one partner per `i` is handled per frame.  Removal indices are
/// appended to `to_remove` and children to `new_asteroids`; the asteroid
/// list itself is not changed here.
pub fn handle_asteroid_collisions(
    asteroids: &Vec<Asteroid>,
    new_asteroids: &mut Vec<Asteroid>,
    to_remove: &mut Vec<usize>,
)
    requires
        asteroids_ok(asteroids@),
    ensures
        final(to_remove)@ == old(to_remove)@ + aa_removals(asteroids@, asteroids@.len() as int),
        old(new_asteroids)@.is_prefix_of(final(new_asteroids)@),
        matches_shapes(
            final(new_asteroids)@.skip(old(new_asteroids)@.len() as int),
            aa_spawns(asteroids@, asteroids@.len() as int),
        ),
{
    let ghost s = asteroids@;
    let ghost rm0 = to_remove@;
    let ghost new0 = new_asteroids@;
    let n = asteroids.len();
    let mut i: usize = 0;
    proof {
        assert(new_asteroids@.skip(new0.len() as int) =~= Seq::<Asteroid>::empty());
    }
    while i < n
        invariant
            asteroids_ok(s),
            s == asteroids@,
            n == s.len(),
            i <= n,
            to_remove@ == rm0 + aa_removals(s, i as int),
            new0.is_prefix_of(new_asteroids@),
            matches_shapes(new_asteroids@.skip(new0.len() as int), aa_spawns(s, i as int)),
        decreases n - i,
    {
        let ghost tail_before = new_asteroids@.skip(new0.len() as int);
        match first_collision_from(asteroids, i) {
            None => {
                proof {
                    assert(aa_contrib_rm(s, i as int) =~= Seq::<usize>::empty());
                    assert(aa_contrib_new(s, i as int) =~= Seq::<(Vec2, Size)>::empty());
                    assert(to_remove@ =~= rm0 + aa_removals(s, i + 1));
                    assert(aa_spawns(s, i as int) + aa_contrib_new(s, i as int) =~= aa_spawns(
                        s,
                        i + 1,
                    ));
                }
            },
            Some(j) => {
                if asteroids[i].get_size() == asteroids[j].get_size() {
                    to_remove.push(i);
                    to_remove.push(j);
                    let ci = asteroids[i].split();
                    let cj = asteroids[j].split();
                    append_all(new_asteroids, &ci);
                    append_all(new_asteroids, &cj);
                    proof {
                        assert(aa_contrib_rm(s, i as int) =~= seq![i as usize, j as usize]);
                        assert(to_remove@ =~= rm0 + aa_removals(s, i + 1));
                        lemma_matches_shapes_concat(ci@, split_shape(s[i as int]), cj@, split_shape(s[j as int]));
                        lemma_matches_shapes_concat(
                            tail_before,
                            aa_spawns(s, i as int),
                            ci@ + cj@,
                            aa_contrib_new(s, i as int),
                        );
                        assert(new_asteroids@.skip(new0.len() as int) =~= tail_before + (ci@
                            + cj@));
                        assert(aa_spawns(s, i as int) + aa_contrib_new(s, i as int) =~= aa_spawns(
                            s,
                            i + 1,
                        ));
                    }
                } else {
                    let small_idx = if asteroids[i].get_size().diameter()
                        < asteroids[j].get_size().diameter() {
                        i
                    } else {
                        j
                    };
                    to_remove.push(small_idx);
                    let c = asteroids[small_idx].split();
                    append_all(new_asteroids, &c);
                    proof {
                        assert(aa_contrib_rm(s, i as int) =~= seq![small_idx]);
                        assert(to_remove@ =~= rm0 + aa_removals(s, i + 1));
                        assert(c@ + Seq::<Asteroid>::empty() =~= c@);
                        lemma_matches_shapes_concat(
                            tail_before,
                            aa_spawns(s, i as int),
                            c@,
                            aa_contrib_new(s, i as int),
                        );
                        assert(new_asteroids@.skip(new0.len() as int) =~= tail_before + c@);
                        assert(aa_spawns(s, i as int) + aa_contrib_new(s, i as int) =~= aa_spawns(
                            s,
                            i + 1,
                        ));
                    }
                }
            },
        }
        i = i + 1;
    }
}

/// The first asteroid at or after index `i0` that collides with the
/// ship, if any; the ship pass stops at the first hit.
pub open spec fn ship_first_hit(s: Seq<Asteroid>, ship: Spaceship, i0: int) -> Option<int>
    decreases s.len() - i0,
{
    if i0 >= s.len() {
        None
    } else if ship_hits(s[i0], ship) {
        Some(i0)
    } else {
        ship_first_hit(s, ship, i0 + 1)
    }
}

/// Removal index contributed by the ship pass: the struck asteroid, if any.
pub open spec fn ship_contrib_rm(s: Seq<Asteroid>, ship: Spaceship) -> Seq<usize> {
    match ship_first_hit(s, ship, 0) {
        Option::None => Seq::empty(),
        Option::Some(k) => seq![k as usize],
    }
}

/// Child shapes contributed by the ship pass: the struck asteroid splits.
pub open spec fn ship_contrib_new(s: Seq<Asteroid>, ship: Spaceship) -> Seq<(Vec2, Size)> {
    match ship_first_hit(s, ship, 0) {
        Option::None => Seq::empty(),
        Option::Some(k) => split_shape(s[k]),
    }
}

/// The ship–asteroid pass.  The first asteroid that overlaps the ship is
/// removed and splits; the return value signals "ship destroyed" to the
/// caller, which decides whether the round ends or continues with reduced
/// health.
pub fn handle_spaceship_asteroid_collision(
    asteroids: &Vec<Asteroid>,
    spaceship: &Spaceship,
    new_asteroids: &mut Vec<Asteroid>,
    to_remove: &mut Vec<usize>,
) -> (r: bool)
    requires
        asteroids_ok(asteroids@),
        vec_ok(spaceship.position),
    ensures
        r == ship_first_hit(asteroids@, *spaceship, 0).is_some(),
        final(to_remove)@ == old(to_remove)@ + ship_contrib_rm(asteroids@, *spaceship),
        old(new_asteroids)@.is_prefix_of(final(new_asteroids)@),
        matches_shapes(
            final(new_asteroids)@.skip(old(new_asteroids)@.len() as int),
            ship_contrib_new(asteroids@, *spaceship),
        ),
{
    let ghost s = asteroids@;
    let ghost rm0 = to_remove@;
    let ghost new0 = new_asteroids@;
    let n = asteroids.len();
    let mut i: usize = 0;
    while i < n
        invariant
            asteroids_ok(s),
            s == asteroids@,
            n == s.len(),
            i <= n,
            vec_ok(spaceship.position),
            rm0 == old(to_remove)@,
            new0 == old(new_asteroids)@,
            to_remove@ == rm0,
            new_asteroids@ == new0,
            ship_first_hit(s, *spaceship, 0) == ship_first_hit(s, *spaceship, i as int),
        decreases n - i,
    {
        if collide(&asteroids[i], spaceship) {
            proof {
                assert(ship_first_hit(s, *spaceship, i as int) == Option::Some(i as int));
            }
            match asteroids[i].get_size() {
                Size::Small => {
                    to_remove.push(i);
                    proof {
                        assert(new0.is_prefix_of(new_asteroids@));
                        assert(new_asteroids@.skip(new0.len() as int) =~= Seq::<
                            Asteroid,
                        >::empty());
                        assert(ship_contrib_new(s, *spaceship) =~= Seq::<(Vec2, Size)>::empty());
                    }
                },
                _ => {
                    let c = asteroids[i].split();
                    append_all(new_asteroids, &c);
                    to_remove.push(i);
                    proof {
                        assert(new0 =~= new_asteroids@.take(new0.len() as int));
                        assert(new_asteroids@.skip(new0.len() as int) =~= c@);
                    }
                },
            }
            proof {
                assert(to_remove@ =~= rm0 + ship_contrib_rm(s, *spaceship));
            }
            return true;
        }
        i = i + 1;
    }
    proof {
        assert(to_remove@ =~= rm0 + ship_contrib_rm(s, *spaceship));
        assert(new_asteroids@.skip(new0.len() as int) =~= Seq::<Asteroid>::empty());
    }
    false
}

/// The first asteroid that collides with the given missile, if any; each
/// missile destroys at most one asteroid per frame.
pub open spec fn m_first_hit(s: Seq<Asteroid>, m: Missile, k0: int) -> Option<int>
    decreases s.len() - k0,
{
    if k0 >= s.len() {
        None
    } else if missile_hits(m, s[k0]) {
        Some(k0)
    } else {
        m_first_hit(s, m, k0 + 1)
    }
}

/// A missile after the missile pass: deactivated iff it was active and
/// hit an asteroid; otherwise untouched.  An inactive missile is skipped
/// by the pass and never collides again.
pub open spec fn missile_after_pass(s: Seq<Asteroid>, m: Missile) -> Missile {
    if m.active && m_first_hit(s, m, 0).is_some() {
        Missile { position: m.position, velocity: m.velocity, active: false }
    } else {
        m
    }
}

/// Removal index contributed by one missile of the missile pass.
pub open spec fn mm_contrib_rm(s: Seq<Asteroid>, m: Missile) -> Seq<usize> {
    if !m.active {
        Seq::empty()
    } else {
        match m_first_hit(s, m, 0) {
            Option::None => Seq::empty(),
            Option::Some(k) => seq![k as usize],
        }
    }
}

/// Child shapes contributed by one missile of the missile pass.
pub open spec fn mm_contrib_new(s: Seq<Asteroid>, m: Missile) -> Seq<(Vec2, Size)> {
    if !m.active {
        Seq::empty()
    } else {
        match m_first_hit(s, m, 0) {
            Option::None => Seq::empty(),
            Option::Some(k) => split_shape(s[k]),
        }
    }
}

/// Removal indices of the missile pass, accumulated over missiles `0..n`.
pub open spec fn mm_removals(s: Seq<Asteroid>, ms: Seq<Missile>, n: int) -> Seq<usize>
    decreases n,
{
    if n <= 0 {
        Seq::empty()
    } else {
        mm_removals(s, ms, n - 1) + mm_contrib_rm(s, ms[n - 1])
    }
}

/// Child shapes of the missile pass, accumulated over missiles `0..n`.
pub open spec fn mm_spawns(s: Seq<Asteroid>, ms: Seq<Missile>, n: int) -> Seq<(Vec2, Size)>
    decreases n,
{
    if n <= 0 {
        Seq::empty()
    } else {
        mm_spawns(s, ms, n - 1) + mm_contrib_new(s, ms[n - 1])
    }
}

/// All active missiles in a list have positions within the coordinate
/// range the collision test needs.
pub open spec fn missiles_ok(ms: Seq<Missile>) -> bool {
    forall|i: int| 0 <= i < ms.len() && (#[trigger] ms[i]).active ==> vec_ok(ms[i].position)
}

/// The first asteroid colliding with the given missile, if any.
fn first_missile_collision(asteroids: &Vec<Asteroid>, m: &Missile) -> (r: Option<usize>)
    requires
        asteroids_ok(asteroids@),
        vec_ok(m.position),
    ensures
        match r {
            Option::None => m_first_hit(asteroids@, *m, 0) == Option::<int>::None,
            Option::Some(k) => k < asteroids@.len() && m_first_hit(asteroids@, *m, 0)
                == Option::Some(k as int),
        },
{
    let ghost s = asteroids@;
    let n = asteroids.len();
    let mut k: usize = 0;
    while k < n
        invariant
            asteroids_ok(s),
            s == asteroids@,
            n == s.len(),
            k <= n,
            vec_ok(m.position),
            m_first_hit(s, *m, 0) == m_first_hit(s, *m, k as int),
        decreases n - k,
    {
        if collide(m, &asteroids[k]) {
            return Some(k);
        }
        k = k + 1;
    }
    None
}

/// The missile–asteroid pass.  Each active missile scans the asteroids in
/// order; on its first hit it is deactivated and the struck asteroid is
/// removed and splits, exactly as in a ship collision.  Inactive missiles
/// are skipped and left untouched.
pub fn handle_missile_asteroid_collisions(
    missiles: &mut Vec<Missile>,
    asteroids: &Vec<Asteroid>,
    new_asteroids: &mut Vec<Asteroid>,
    to_remove: &mut Vec<usize>,
)
    requires
        asteroids_ok(asteroids@),
        missiles_ok(old(missiles)@),
    ensures
        final(missiles)@.len() == old(missiles)@.len(),
        forall|i: int|
            0 <= i < old(missiles)@.len() ==> final(missiles)@[i] == missile_after_pass(
                asteroids@,
                old(missiles)@[i],
            ),
        final(to_remove)@ == old(to_remove)@ + mm_removals(
            asteroids@,
            old(missiles)@,
            old(missiles)@.len() as int,
        ),
        old(new_asteroids)@.is_prefix_of(final(new_asteroids)@),
        matches_shapes(
            final(new_asteroids)@.skip(old(new_asteroids)@.len() as int),
            mm_spawns(asteroids@, old(missiles)@, old(missiles)@.len() as int),
        ),
{
    let ghost s = asteroids@;
    let ghost ms0 = missiles@;
    let ghost rm0 = to_remove@;
    let ghost new0 = new_asteroids@;
    let n = missiles.len();
    let mut out: Vec<Missile> = Vec::new();
    let mut i: usize = 0;
    proof {
        assert(new_asteroids@.skip(new0.len() as int) =~= Seq::<Asteroid>::empty());
    }
    while i < n
        invariant
            asteroids_ok(s),
            s == asteroids@,
            missiles_ok(ms0),
            ms0 == missiles@,
            n == ms0.len(),
            i <= n,
            out@.len() == i,
            forall|k: int| 0 <= k < i ==> out@[k] == missile_after_pass(s, ms0[k]),
            to_remove@ == rm0 + mm_removals(s, ms0, i as int),
            new0.is_prefix_of(new_asteroids@),
            matches_shapes(new_asteroids@.skip(new0.len() as int), mm_spawns(s, ms0, i as int)),
        decreases n - i,
    {
        let ghost tail_before = new_asteroids@.skip(new0.len() as int);
        let m = missiles[i];
        if m.is_active() {
            match first_missile_collision(asteroids, &m) {
                None => {
                    out.push(m);
                    proof {
                        assert(to_remove@ =~= rm0 + mm_removals(s, ms0, i + 1));
                        assert(mm_spawns(s, ms0, i as int) + mm_contrib_new(s, ms0[i as int])
                            =~= mm_spawns(s, ms0, i + 1));
                    }
                },
                Some(k) => {
                    let mut hit_missile = m;
                    hit_missile.deactivate();
                    out.push(hit_missile);
                    match asteroids[k].get_size() {
                        Size::Small => {
                            to_remove.push(k);
                            proof {
                                assert(new_asteroids@.skip(new0.len() as int) =~= tail_before);
                                assert(mm_spawns(s, ms0, i + 1) =~= mm_spawns(s, ms0, i as int));
                            }
                        },
                        _ => {
                            let c = asteroids[k].split();
                            append_all(new_asteroids, &c);
                            to_remove.push(k);
                            proof {
                                lemma_matches_shapes_concat(
                                    tail_before,
                                    mm_spawns(s, ms0, i as int),
                                    c@,
                                    mm_contrib_new(s, ms0[i as int]),
                                );
                                assert(new_asteroids@.skip(new0.len() as int) =~= tail_before
                                    + c@);
                                assert(mm_spawns(s, ms0, i as int) + mm_contrib_new(
                                    s,
                                    ms0[i as int],
                                ) =~= mm_spawns(s, ms0, i + 1));
                            }
                        },
                    }
                    proof {
                        assert(to_remove@ =~= rm0 + mm_removals(s, ms0, i + 1));
                    }
                },
            }
        } else {
            out.push(m);
            proof {
                assert(to_remove@ =~= rm0 + mm_removals(s, ms0, i + 1));
                assert(mm_spawns(s, ms0, i as int) + mm_contrib_new(s, ms0[i as int])
                    =~= mm_spawns(s, ms0, i + 1));
            }
        }
        i = i + 1;
    }
    *missiles = out;
}

/// The asteroids of `s` that survive removal of the index set `rm`,
/// considering indices `0..n`: order is kept, every index in `rm` is
/// dropped, duplicate or out-of-range indices in `rm` have no effect.
pub open spec fn remove_indices(s: Seq<Asteroid>, rm: Seq<usize>, n: int) -> Seq<Asteroid>
    decreases n,
{
    if n <= 0 {
        Seq::empty()
    } else {
        remove_indices(s, rm, n - 1) + if rm.contains((n - 1) as usize) {
            Seq::empty()
        } else {
            seq![s[n - 1]]
        }
    }
}

/// Whether the list of indices contains `x`.
fn contains_index(v: &Vec<usize>, x: usize) -> (r: bool)
    ensures
        r == v@.contains(x),
{
    let mut k: usize = 0;
    while k < v.len()
        invariant
            k <= v@.len(),
            forall|j: int| 0 <= j < k ==> v@[j] != x,
        decreases v@.len() - k,
    {
        if v[k] == x {
            return true;
        }
        k = k + 1;
    }
    false
}

/// Applies the collected removals to the live asteroid list: every
/// asteroid whose index was marked is dropped, the others keep their
/// order.  Stale or duplicate indices are tolerated and simply have no
/// effect.
pub fn remove_collided_asteroids(asteroids: &mut Vec<Asteroid>, to_remove: &Vec<usize>)
    ensures
        final(asteroids)@ == remove_indices(
            old(asteroids)@,
            to_remove@,
            old(asteroids)@.len() as int,
        ),
{
    let ghost s = asteroids@;
    let mut kept: Vec<Asteroid> = Vec::new();
    let n = asteroids.len();
    let mut i: usize = 0;
    while i < n
        invariant
            s == asteroids@,
            n == s.len(),
            i <= n,
            kept@ == remove_indices(s, to_remove@, i as int),
        decreases n - i,
    {
        if !contains_index(to_remove, i) {
            kept.push(asteroids[i]);
            proof {
                assert(kept@ =~= remove_indices(s, to_remove@, i + 1));
            }
        } else {
            proof {
                assert(kept@ =~= remove_indices(s, to_remove@, i + 1));
            }
        }
        i = i + 1;
    }
    *asteroids = kept;
}

/// Every removal index collected in one frame: the three passes in their
/// fixed order, all computed against the same pre-pass asteroid list.
pub open spec fn frame_removals(s: Seq<Asteroid>, ship: Spaceship, ms: Seq<Missile>) -> Seq<
    usize,
> {
    aa_removals(s, s.len() as int) + ship_contrib_rm(s, ship) + mm_removals(
        s,
        ms,
        ms.len() as int,
    )
}

/// Every child shape spawned in one frame, in pass order.
pub open spec fn frame_spawns(s: Seq<Asteroid>, ship: Spaceship, ms: Seq<Missile>) -> Seq<
    (Vec2, Size),
> {
    aa_spawns(s, s.len() as int) + ship_contrib_new(s, ship) + mm_spawns(s, ms, ms.len() as int)
}

/// One frame of collision handling: the three passes run against the
/// pre-pass asteroid list, their removals are applied at once, and all
/// children are appended.  Returns whether the ship was struck; the
/// caller decides what that costs.
pub fn handle_collisions(
    asteroids: &mut Vec<Asteroid>,
    spaceship: &Spaceship,
    missiles: &mut Vec<Missile>,
) -> (r: bool)
    requires
        asteroids_ok(old(asteroids)@),
        vec_ok(spaceship.position),
        missiles_ok(old(missiles)@),
    ensures
        r == ship_first_hit(old(asteroids)@, *spaceship, 0).is_some(),
        final(missiles)@.len() == old(missiles)@.len(),
        forall|i: int|
            0 <= i < old(missiles)@.len() ==> final(missiles)@[i] == missile_after_pass(
                old(asteroids)@,
                old(missiles)@[i],
            ),
        final(asteroids)@.len() == remove_indices(
            old(asteroids)@,
            frame_removals(old(asteroids)@, *spaceship, old(missiles)@),
            old(asteroids)@.len() as int,
        ).len() + frame_spawns(old(asteroids)@, *spaceship, old(missiles)@).len(),
        final(asteroids)@.take(
            remove_indices(
                old(asteroids)@,
                frame_removals(old(asteroids)@, *spaceship, old(missiles)@),
                old(asteroids)@.len() as int,
            ).len() as int,
        ) == remove_indices(
            old(asteroids)@,
            frame_removals(old(asteroids)@, *spaceship, old(missiles)@),
            old(asteroids)@.len() as int,
        ),
        matches_shapes(
            final(asteroids)@.skip(
                remove_indices(
                    old(asteroids)@,
                    frame_removals(old(asteroids)@, *spaceship, old(missiles)@),
                    old(asteroids)@.len() as int,
                ).len() as int,
            ),
            frame_spawns(old(asteroids)@, *spaceship, old(missiles)@),
        ),
{
    let ghost s = asteroids@;
    let ghost ms0 = missiles@;
    let mut new_asteroids: Vec<Asteroid> = Vec::new();
    let mut to_remove: Vec<usize> = Vec::new();
    handle_asteroid_collisions(asteroids, &mut new_asteroids, &mut to_remove);
    let ghost new_after_aa = new_asteroids@;
    let spaceship_collision = handle_spaceship_asteroid_collision(
        asteroids,
        spaceship,
        &mut new_asteroids,
        &mut to_remove,
    );
    let ghost new_after_ship = new_asteroids@;
    handle_missile_asteroid_collisions(missiles, asteroids, &mut new_asteroids, &mut to_remove);
    proof {
        assert(to_remove@ =~= frame_removals(s, *spaceship, ms0));
        assert(new_after_aa.skip(0) =~= new_after_aa);
        lemma_matches_shapes_concat(
            new_after_aa,
            aa_spawns(s, s.len() as int),
            new_after_ship.skip(new_after_aa.len() as int),
            ship_contrib_new(s, *spaceship),
        );
        assert(new_after_aa + new_after_ship.skip(new_after_aa.len() as int) =~= new_after_ship);
        lemma_matches_shapes_concat(
            new_after_ship,
            aa_spawns(s, s.len() as int) + ship_contrib_new(s, *spaceship),
            new_asteroids@.skip(new_after_ship.len() as int),
            mm_spawns(s, ms0, ms0.len() as int),
        );
        assert(new_after_ship + new_asteroids@.skip(new_after_ship.len() as int)
            =~= new_asteroids@);
        assert(aa_spawns(s, s.len() as int) + ship_contrib_new(s, *spaceship) + mm_spawns(
            s,
            ms0,
            ms0.len() as int,
        ) =~= frame_spawns(s, *spaceship, ms0));
        assert(matches_shapes(new_asteroids@, frame_spawns(s, *spaceship, ms0)));
    }
    remove_collided_asteroids(asteroids, &to_remove);
    let ghost kept = asteroids@;
    asteroids.append(&mut new_asteroids);
    proof {
        assert(kept =~= asteroids@.take(kept.len() as int));
        assert(asteroids@.skip(kept.len() as int) =~= asteroids@.subrange(
            kept.len() as int,
            asteroids@.len() as int,
        ));
    }
    spaceship_collision
}

/// The missiles of `ms[0..n]` that are still active, in order: the live
/// set is purged of spent missiles before each frame's motion.
pub open spec fn active_missiles_upto(ms: Seq<Missile>, n: int) -> Seq<Missile>
    decreases n,
{
    if n <= 0 {
        Seq::empty()
    } else {
        active_missiles_upto(ms, n - 1) + if ms[n - 1].active {
            seq![ms[n - 1]]
        } else {
            Seq::empty()
        }
    }
}

pub open spec fn active_missiles(ms: Seq<Missile>) -> Seq<Missile> {
    active_missiles_upto(ms, ms.len() as int)
}

/// All asteroids in a list have positions and velocities within the
/// coordinate range the motion arithmetic needs.
pub open spec fn asteroids_motion_ok(s: Seq<Asteroid>) -> bool {
    forall|i: int|
        0 <= i < s.len() ==> vec_ok((#[trigger] s[i]).position) && vec_ok(s[i].speed)
}

/// All active missiles in a list have positions and velocities within the
/// coordinate range the motion arithmetic needs.
pub open spec fn missiles_motion_ok(ms: Seq<Missile>) -> bool {
    forall|i: int|
        0 <= i < ms.len() && (#[trigger] ms[i]).active ==> vec_ok(ms[i].position) && vec_ok(
            ms[i].velocity,
        )
}

/// One frame of motion for every entity: every asteroid advances and
/// wraps, the ship advances under thrust, wrap and drag, and the missile
/// list is first purged of inactive missiles, after which each survivor
/// advances and deactivates if it left the viewport.  The thrust vector
/// is the acceleration the caller derived from the ship's heading.
pub fn update_model(
    asteroids: &mut Vec<Asteroid>,
    spaceship: &mut Spaceship,
    missiles: &mut Vec<Missile>,
    thrust: Vec2,
    width: i64,
    height: i64,
)
    requires
        asteroids_motion_ok(old(asteroids)@),
        vec_ok(old(spaceship).position),
        vec_ok(old(spaceship).velocity),
        vec_ok(thrust),
        missiles_motion_ok(old(missiles)@),
        dim_ok(width as int),
        dim_ok(height as int),
    ensures
        final(asteroids)@.len() == old(asteroids)@.len(),
        forall|i: int|
            0 <= i < old(asteroids)@.len() ==> final(asteroids)@[i] == asteroid_step(
                old(asteroids)@[i],
                width as int,
                height as int,
            ),
        *final(spaceship) == ship_step(*old(spaceship), thrust, width as int, height as int),
        final(missiles)@.len() == active_missiles(old(missiles)@).len(),
        forall|k: int|
            0 <= k < final(missiles)@.len() ==> final(missiles)@[k] == missile_step(
                active_missiles(old(missiles)@)[k],
                width as int,
                height as int,
            ),
{
    let ghost s = asteroids@;
    let ghost ms0 = missiles@;
    let mut moved: Vec<Asteroid> = Vec::new();
    let an = asteroids.len();
    let mut i: usize = 0;
    while i < an
        invariant
            asteroids_motion_ok(s),
            s == asteroids@,
            an == s.len(),
            i <= an,
            moved@.len() == i,
            forall|k: int|
                0 <= k < i ==> moved@[k] == asteroid_step(s[k], width as int, height as int),
            dim_ok(width as int),
            dim_ok(height as int),
        decreases an - i,
    {
        let mut a = asteroids[i];
        a.move_object(width, height);
        moved.push(a);
        i = i + 1;
    }
    *asteroids = moved;

    spaceship.update(thrust, width, height);

    let mut kept: Vec<Missile> = Vec::new();
    let mn = missiles.len();
    let mut j: usize = 0;
    while j < mn
        invariant
            missiles_motion_ok(ms0),
            ms0 == missiles@,
            mn == ms0.len(),
            j <= mn,
            kept@ == active_missiles_upto(ms0, j as int),
            missiles_motion_ok(kept@),
            forall|k: int| 0 <= k < kept@.len() ==> (#[trigger] kept@[k]).active,
        decreases mn - j,
    {
        if missiles[j].is_active() {
            kept.push(missiles[j]);
            proof {
                assert(kept@ =~= active_missiles_upto(ms0, j + 1));
            }
        } else {
            proof {
                assert(kept@ =~= active_missiles_upto(ms0, j + 1));
            }
        }
        j = j + 1;
    }

    let ghost act = active_missiles(ms0);
    let mut upd: Vec<Missile> = Vec::new();
    let kn = kept.len();
    let mut k: usize = 0;
    while k < kn
        invariant
            kept@ == act,
            kn == kept@.len(),
            k <= kn,
            missiles_motion_ok(kept@),
            forall|t: int| 0 <= t < kept@.len() ==> (#[trigger] kept@[t]).active,
            upd@.len() == k,
            forall|t: int|
                0 <= t < k ==> upd@[t] == missile_step(act[t], width as int, height as int),
            dim_ok(width as int),
            dim_ok(height as int),
        decreases kn - k,
    {
        let mut m = kept[k];
        m.update(width, height);
        upd.push(m);
        k = k + 1;
    }
    *missiles = upd;
}

/// The per-frame intents of the player, as one snapshot.
#[derive(Clone, Copy, PartialEq, Eq, Structural, Debug)]
pub struct InputState {
    pub rotate_left: bool,
    pub rotate_right: bool,
    pub thrust: bool,
    /// Edge-triggered: fires at most one missile per press.
    pub fire: bool,
    pub quit: bool,
}

/// Applies one input snapshot: a quit request leaves everything untouched
/// and ends the loop; otherwise the ship rotates and sets its thrust
/// flag, and a fire intent appends one missile at the ship's position.
/// `fire_velocity` is the missile velocity the caller derived from the
/// heading after this frame's rotation.
pub fn handle_input(
    spaceship: &mut Spaceship,
    missiles: &mut Vec<Missile>,
    input: InputState,
    fire_velocity: Vec2,
) -> (quit: bool)
    requires
        i64::MIN < old(spaceship).rotation < i64::MAX,
    ensures
        quit == input.quit,
        input.quit ==> *final(spaceship) == *old(spaceship),
        input.quit ==> final(missiles)@ == old(missiles)@,
        !input.quit ==> final(spaceship).rotation == old(spaceship).rotation - (
        if input.rotate_left {
            1int
        } else {
            0int
        }) + (
        if input.rotate_right {
            1int
        } else {
            0int
        }),
        !input.quit ==> final(spaceship).position == old(spaceship).position,
        !input.quit ==> final(spaceship).velocity == old(spaceship).velocity,
        !input.quit ==> final(spaceship).push == input.thrust,
        !input.quit && input.fire ==> final(missiles)@ == old(missiles)@.push(
            (Missile { position: old(spaceship).position, velocity: fire_velocity, active: true }),
        ),
        !input.quit && !input.fire ==> final(missiles)@ == old(missiles)@,
{
    if input.quit {
        return true;
    }
    if input.rotate_left {
        spaceship.rotate_left();
    }
    if input.rotate_right {
        spaceship.rotate_right();
    }
    spaceship.set_push(input.thrust);
    if input.fire {
        let m = Missile::new(spaceship.get_position(), fire_velocity);
        missiles.push(m);
    }
    false
}

/// The win condition: the round is won exactly when no asteroid is left.
pub fn handle_win(asteroids: &Vec<Asteroid>) -> (won: bool)
    ensures
        won == (asteroids@.len() == 0),
{
    asteroids.len() == 0
}

/// Two asteroids of the same `Medium` tier within collision range destroy
/// each other in one pass: both indices are marked for removal and each
/// contributes its two split children, four new asteroids in all.
pub proof fn lemma_equal_size_mutual_destruction(a: Asteroid, b: Asteroid)
    requires
        a.size == Size::Medium,
        b.size == Size::Medium,
        ast_collides(a, b),
    ensures
        aa_removals(seq![a, b], 2) == seq![0usize, 1usize],
        aa_spawns(seq![a, b], 2) == split_shape(a) + split_shape(b),
        aa_spawns(seq![a, b], 2).len() == 4,
{
    let s = seq![a, b];
    assert(s.len() == 2);
    assert(s[0] == a && s[1] == b);
    assert(aa_first_hit(s, 0, 1) == Option::Some(1int));
    assert(aa_contrib_rm(s, 0) =~= seq![0usize, 1usize]);
    assert(aa_contrib_new(s, 0) =~= split_shape(a) + split_shape(b));
    assert(aa_first_hit(s, 1, 2) == Option::<int>::None);
    assert(aa_contrib_rm(s, 1) =~= Seq::empty());
    assert(aa_contrib_new(s, 1) =~= Seq::empty());
    assert(aa_removals(s, 0) =~= Seq::empty());
    assert(aa_removals(s, 1) =~= aa_contrib_rm(s, 0));
    assert(aa_removals(s, 2) =~= aa_removals(s, 1) + aa_contrib_rm(s, 1));
    assert(aa_removals(s, 2) =~= seq![0usize, 1usize]);
    assert(aa_spawns(s, 0) =~= Seq::empty());
    assert(aa_spawns(s, 1) =~= aa_contrib_new(s, 0));
    assert(aa_spawns(s, 2) =~= aa_spawns(s, 1) + aa_contrib_new(s, 1));
    assert(aa_spawns(s, 2) =~= split_shape(a) + split_shape(b));
}

/// A `Large` and a `Medium` asteroid within collision range resolve
/// asymmetrically: only the smaller `Medium` one is removed and splits
/// into its two children; the `Large` one is unaffected.
pub proof fn lemma_unequal_size_asymmetric_destruction(a: Asteroid, b: Asteroid)
    requires
        a.size == Size::Large,
        b.size == Size::Medium,
        ast_collides(a, b),
    ensures
        aa_removals(seq![a, b], 2) == seq![1usize],
        aa_spawns(seq![a, b], 2) == split_shape(b),
        aa_spawns(seq![a, b], 2).len() == 2,
{
    let s = seq![a, b];
    assert(s.len() == 2);
    assert(s[0] == a && s[1] == b);
    assert(aa_first_hit(s, 0, 1) == Option::Some(1int));
    assert(aa_contrib_rm(s, 0) =~= seq![1usize]);
    assert(aa_contrib_new(s, 0) =~= split_shape(b));
    assert(aa_first_hit(s, 1, 2) == Option::<int>::None);
    assert(aa_contrib_rm(s, 1) =~= Seq::empty());
    assert(aa_contrib_new(s, 1) =~= Seq::empty());
    assert(aa_removals(s, 0) =~= Seq::empty());
    assert(aa_removals(s, 1) =~= aa_contrib_rm(s, 0));
    assert(aa_removals(s, 2) =~= aa_removals(s, 1) + aa_contrib_rm(s, 1));
    assert(aa_removals(s, 2) =~= seq![1usize]);
    assert(aa_spawns(s, 0) =~= Seq::empty());
    assert(aa_spawns(s, 1) =~= aa_contrib_new(s, 0));
    assert(aa_spawns(s, 2) =~= aa_spawns(s, 1) + aa_contrib_new(s, 1));
    assert(aa_spawns(s, 2) =~= split_shape(b));
}

/// An inactive missile is inert for the whole collision pass: it is left
/// exactly as it is, marks no asteroid for removal and spawns nothing.
pub proof fn lemma_inactive_missile_inert(s: Seq<Asteroid>, m: Missile)
    requires
        !m.active,
    ensures
        missile_after_pass(s, m) == m,
        mm_contrib_rm(s, m) == Seq::<usize>::empty(),
        mm_contrib_new(s, m) == Seq::<(Vec2, Size)>::empty(),
{
}

} // verus!
