//! Circular colliders and the all-pairs collision scan with mass-weighted
//! pushback.
//!
//! Each tick runs a three-phase protocol: [`collide`] scans every ordered
//! pair and accumulates corrections, [`apply_pushback`] applies each
//! entity's averaged correction once, and [`reset`] clears the accumulators
//! for the next tick.
use vstd::math::abs;
use vstd::prelude::*;

use crate::error::ConfigError;
use crate::monster::Entity;
use crate::num::{sqrt_floor, COORD_LIMIT, DIR_LIMIT, HALF_SCALE, MASS_LIMIT, MAX_ENTITIES,
    PUSH_LIMIT, RADIUS_LIMIT, SCALE};
use crate::vec2::Vec2I;

verus! {

/// A collider's mass: a finite fixed-point scalar, or infinite for an
/// immovable body.
#[derive(Clone, Copy, Debug, PartialEq, Eq, Structural)]
pub enum Mass {
    Finite(u64),
    Infinite,
}

/// A circular collision footprint.
#[derive(Clone, Copy, Debug, PartialEq, Eq, Structural)]
pub struct CircleCollider {
    /// Radius, a nonnegative fixed-point scalar.
    pub radius: i64,
    pub mass: Mass,
    /// Whether this entity takes part in pushback resolution.
    pub pushback: bool,
    /// Whether this entity records the entities it overlaps.
    pub detect: bool,
}

impl CircleCollider {
    /// A nonnegative, bounded radius and a bounded finite mass.
    pub open spec fn wf(self) -> bool {
        &&& 0 <= self.radius <= RADIUS_LIMIT
        &&& (self.mass matches Mass::Finite(m) ==> m <= MASS_LIMIT)
    }

    /// Validates a collider eagerly; a negative radius is a configuration
    /// error.
    pub fn new(radius: i64, mass: Mass, pushback: bool, detect: bool) -> (r: Result<
        CircleCollider,
        ConfigError,
    >)
        requires
            radius <= RADIUS_LIMIT,
            mass matches Mass::Finite(m) ==> m <= MASS_LIMIT,
        ensures
            radius < 0 ==> r == Err::<CircleCollider, ConfigError>(ConfigError::NegativeRadius),
            radius >= 0 ==> r == Ok::<CircleCollider, ConfigError>(
                CircleCollider { radius, mass, pushback, detect },
            ),
            r matches Ok(c) ==> c.wf(),
    {
        if radius < 0 {
            Err(ConfigError::NegativeRadius)
        } else {
            Ok(CircleCollider { radius, mass, pushback, detect })
        }
    }
}

/// Per-entity, per-tick collision output: the pending correction, the
/// number of pairs that contributed to it, and the overlapping entities
/// seen (populated only when the collider detects).
#[derive(Clone, Debug)]
pub struct CollisionDetector {
    pub offset: Vec2I,
    pub count: u32,
    pub entities: Vec<usize>,
}

impl CollisionDetector {
    /// The accumulator's budget: the pending offset is a sum of `count`
    /// contributions of at most [`PUSH_LIMIT`] each. In particular a
    /// nonzero offset always has contributors to average over.
    pub open spec fn wf(self) -> bool {
        &&& -(self.count * PUSH_LIMIT) <= self.offset.x <= self.count * PUSH_LIMIT
        &&& -(self.count * PUSH_LIMIT) <= self.offset.y <= self.count * PUSH_LIMIT
    }

    /// Nothing accumulated: the state the reset phase leaves behind.
    pub open spec fn is_empty(self) -> bool {
        &&& self.offset == (Vec2I { x: 0, y: 0 })
        &&& self.count == 0
        &&& self.entities@ == Seq::<usize>::empty()
    }

    /// A fresh, empty accumulator.
    pub fn empty() -> (r: CollisionDetector)
        ensures
            r.is_empty(),
            r.wf(),
    {
        CollisionDetector { offset: Vec2I { x: 0, y: 0 }, count: 0, entities: Vec::new() }
    }
}

/// A collider paired with its per-tick accumulator.
#[derive(Clone, Debug)]
pub struct ColliderBunde {
    pub collider: CircleCollider,
    pub collision: CollisionDetector,
}

impl ColliderBunde {
    pub open spec fn wf(self) -> bool {
        self.collider.wf() && self.collision.wf()
    }

    /// A collider with nothing yet accumulated.
    pub fn new(collider: CircleCollider) -> (r: ColliderBunde)
        requires
            collider.wf(),
        ensures
            r.collider == collider,
            r.collision.is_empty(),
            r.wf(),
    {
        ColliderBunde { collider, collision: CollisionDetector::empty() }
    }
}

/// Whether circles of combined radius `range` at `p1` and `p2` overlap:
/// the squared distance is strictly below the squared range.
pub open spec fn pair_overlapping(p1: Vec2I, p2: Vec2I, range: int) -> bool {
    let dx = p1.x - p2.x;
    let dy = p1.y - p2.y;
    dx * dx + dy * dy < range * range
}

/// The share of a pair's correction taken by the first collider,
/// `m2 / (m1 + m2)` in SCALE units. Where that ratio is not a number it
/// falls back deterministically: full weight if only the second mass is
/// infinite, else the neutral half.
pub open spec fn mass_scale(m1: Mass, m2: Mass) -> int {
    match (m1, m2) {
        (Mass::Finite(a), Mass::Finite(b)) => if a + b == 0 {
            HALF_SCALE as int
        } else {
            (b as int) * (SCALE as int) / (a as int + b as int)
        },
        (Mass::Finite(_), Mass::Infinite) => SCALE as int,
        (Mass::Infinite, Mass::Finite(_)) => 0,
        (Mass::Infinite, Mass::Infinite) => HALF_SCALE as int,
    }
}

/// One component of a pair's pushback:
/// `weight * dir * (range - dist) / range`, in the direction's sign, the
/// division truncating toward zero.
pub open spec fn push_component(weight: int, dir: int, range: int, dist: int) -> int {
    let m = weight * (abs(dir) as int) * (range - dist) / (range * SCALE);
    if dir < 0 {
        -m
    } else {
        m
    }
}

/// The pushback an overlapping pair contributes to its first entity: the
/// separation direction `p1 - p2`, weighted by the mass share and by the
/// overlap ratio `(range - dist) / range`. Coincident centers take the
/// x axis instead, the entity of lower identity pushed toward negative x.
pub open spec fn pair_pushback(
    p1: Vec2I,
    c1: CircleCollider,
    p2: Vec2I,
    c2: CircleCollider,
    first_lower: bool,
) -> (int, int) {
    let range = c1.radius + c2.radius;
    let dx = p1.x - p2.x;
    let dy = p1.y - p2.y;
    let d2 = dx * dx + dy * dy;
    let dist = sqrt_floor(d2 as nat) as int;
    let weight = mass_scale(c1.mass, c2.mass);
    let dirx = if d2 != 0 {
        dx
    } else if first_lower {
        -range
    } else {
        range
    };
    let diry = if d2 != 0 {
        dy
    } else {
        0
    };
    (push_component(weight, dirx, range, dist), push_component(weight, diry, range, dist))
}

/// The mass share over machine words.
fn mass_scale_exec(m1: Mass, m2: Mass) -> (r: i64)
    requires
        m1 matches Mass::Finite(a) ==> a <= MASS_LIMIT,
        m2 matches Mass::Finite(b) ==> b <= MASS_LIMIT,
    ensures
        r == mass_scale(m1, m2),
        0 <= r <= SCALE,
{
    match (m1, m2) {
        (Mass::Finite(a), Mass::Finite(b)) => {
            if a == 0 && b == 0 {
                HALF_SCALE
            } else {
                proof {
                    assert((b as int) * (SCALE as int) <= 1_000_000_000_000_000) by (
                    nonlinear_arith)
                        requires
                            b <= MASS_LIMIT,
                            MASS_LIMIT == 1_000_000_000_000u64,
                            SCALE == 1000i64,
                    ;
                }
                let num: u64 = b * (SCALE as u64);
                let den: u64 = a + b;
                proof {
                    assert(num <= (den as int) * (SCALE as int)) by (nonlinear_arith)
                        requires
                            num == (b as int) * (SCALE as int),
                            b <= den,
                            SCALE == 1000i64,
                    ;
                    vstd::arithmetic::div_mod::lemma_multiply_divide_le(
                        num as int,
                        den as int,
                        SCALE as int,
                    );
                    vstd::arithmetic::div_mod::lemma_div_pos_is_pos(num as int, den as int);
                }
                (num / den) as i64
            }
        },
        (Mass::Finite(_), Mass::Infinite) => SCALE,
        (Mass::Infinite, Mass::Finite(_)) => 0,
        (Mass::Infinite, Mass::Infinite) => HALF_SCALE,
    }
}

/// The pushback contribution of one overlapping pair, over machine words.
fn pushback_for_pair(
    p1: Vec2I,
    c1: CircleCollider,
    p2: Vec2I,
    c2: CircleCollider,
    first_lower: bool,
) -> (r: Vec2I)
    requires
        c1.wf(),
        c2.wf(),
        -DIR_LIMIT <= p1.x - p2.x <= DIR_LIMIT,
        -DIR_LIMIT <= p1.y - p2.y <= DIR_LIMIT,
        pair_overlapping(p1, p2, c1.radius + c2.radius),
    ensures
        (r.x as int, r.y as int) == pair_pushback(p1, c1, p2, c2, first_lower),
        r.in_range(PUSH_LIMIT as int),
{
    let range: i64 = c1.radius + c2.radius;
    let dx: i64 = p1.x - p2.x;
    let dy: i64 = p1.y - p2.y;
    let adx: u64 = if dx >= 0 {
        dx as u64
    } else {
        (-dx) as u64
    };
    let ady: u64 = if dy >= 0 {
        dy as u64
    } else {
        (-dy) as u64
    };
    proof {
        assert((adx as int) * (adx as int) == dx * dx && (adx as int) * (adx as int)
            <= 4_000_000_000_000_000_000) by (nonlinear_arith)
            requires
                adx == abs(dx as int),
                adx <= 2_000_000_000,
        ;
        assert((ady as int) * (ady as int) == dy * dy && (ady as int) * (ady as int)
            <= 4_000_000_000_000_000_000) by (nonlinear_arith)
            requires
                ady == abs(dy as int),
                ady <= 2_000_000_000,
        ;
    }
    let d2: u64 = adx * adx + ady * ady;
    let dist: u64 = crate::num::isqrt(d2);
    proof {
        assert(range * range > d2) by {
            assert(pair_overlapping(p1, p2, c1.radius + c2.radius));
        }
        assert(range > 0) by (nonlinear_arith)
            requires
                range * range > d2,
                d2 >= 0,
                range >= 0,
        ;
        if dist >= range {
            assert((dist as int) * (dist as int) >= range * range) by (nonlinear_arith)
                requires
                    dist >= range,
                    range >= 0,
            ;
        }
        assert(dist < range);
        crate::num::lemma_sqrt_floor_covers(d2 as nat, adx as nat);
        crate::num::lemma_sqrt_floor_covers(d2 as nat, ady as nat);
    }
    let weight: i64 = mass_scale_exec(c1.mass, c2.mass);
    let dirx: i64 = if d2 != 0 {
        dx
    } else if first_lower {
        -range
    } else {
        range
    };
    let diry: i64 = if d2 != 0 {
        dy
    } else {
        0
    };
    let gap: i64 = range - dist as i64;
    let rx: i64 = push_component_exec(weight, dirx, range, gap);
    let ry: i64 = push_component_exec(weight, diry, range, gap);
    Vec2I { x: rx, y: ry }
}

/// One signed pushback component: `weight * |dir| * gap / (range * SCALE)`
/// with the direction's sign reapplied.
fn push_component_exec(weight: i64, dir: i64, range: i64, gap: i64) -> (r: i64)
    requires
        0 <= weight <= SCALE,
        -range <= dir <= range,
        0 < range <= PUSH_LIMIT,
        0 < gap <= range,
    ensures
        r == push_component(weight as int, dir as int, range as int, (range - gap) as int),
        -abs(dir as int) <= r <= abs(dir as int),
        -PUSH_LIMIT <= r <= PUSH_LIMIT,
{
    let adir: u64 = if dir >= 0 {
        dir as u64
    } else {
        (-dir) as u64
    };
    proof {
        assert((weight as int) * (adir as int) <= 2_000_000_000_000) by (nonlinear_arith)
            requires
                0 <= weight <= 1000,
                0 <= adir <= 2_000_000_000,
        ;
    }
    let wa: u128 = (weight as u128) * (adir as u128);
    proof {
        assert((wa as int) * (gap as int) <= 4_000_000_000_000_000_000_000) by (nonlinear_arith)
            requires
                0 <= wa <= 2_000_000_000_000u128,
                0 < gap <= 2_000_000_000,
        ;
    }
    let num: u128 = wa * (gap as u128);
    proof {
        assert((range as int) * (SCALE as int) <= 2_000_000_000_000 && (range as int) * (
        SCALE as int) > 0) by (nonlinear_arith)
            requires
                0 < range <= 2_000_000_000,
                SCALE == 1000i64,
        ;
    }
    let den: u128 = (range as u128) * (SCALE as u128);
    proof {
        assert((num as int) <= (den as int) * (adir as int)) by (nonlinear_arith)
            requires
                num == (weight as int) * (adir as int) * (gap as int),
                den == (range as int) * (SCALE as int),
                0 <= weight <= SCALE,
                0 <= adir,
                0 < gap <= range,
                SCALE == 1000i64,
        ;
        vstd::arithmetic::div_mod::lemma_div_is_ordered(
            num as int,
            (den as int) * (adir as int),
            den as int,
        );
        vstd::arithmetic::div_mod::lemma_div_multiples_vanish(adir as int, den as int);
        vstd::arithmetic::div_mod::lemma_div_pos_is_pos(num as int, den as int);
    }
    let mag: u128 = num / den;
    let m: i64 = mag as i64;
    proof {
        assert(weight * (abs(dir as int) as int) * (gap as int) == (num as int) && (range
            * SCALE) as int == den as int) by (nonlinear_arith)
            requires
                num == (weight as int) * (adir as int) * (gap as int),
                den == (range as int) * (SCALE as int),
                adir == abs(dir as int),
        ;
    }
    if dir < 0 {
        -m
    } else {
        m
    }
}

/// The mass share lies in `[0, SCALE]`.
pub proof fn lemma_mass_scale_bounds(m1: Mass, m2: Mass)
    requires
        m1 matches Mass::Finite(a) ==> a <= MASS_LIMIT,
        m2 matches Mass::Finite(b) ==> b <= MASS_LIMIT,
    ensures
        0 <= mass_scale(m1, m2) <= SCALE,
{
    match (m1, m2) {
        (Mass::Finite(a), Mass::Finite(b)) => {
            if a + b != 0 {
                assert((b as int) * (SCALE as int) <= (a as int + b as int) * (SCALE as int))
                    by (nonlinear_arith)
                    requires
                        b <= a + b,
                        SCALE == 1000i64,
                ;
                vstd::arithmetic::div_mod::lemma_multiply_divide_le(
                    (b as int) * (SCALE as int),
                    a as int + b as int,
                    SCALE as int,
                );
                vstd::arithmetic::div_mod::lemma_div_pos_is_pos(
                    (b as int) * (SCALE as int),
                    a as int + b as int,
                );
                assert((b as int) * (SCALE as int) >= 0) by (nonlinear_arith)
                    requires
                        b >= 0,
                        SCALE == 1000i64,
                ;
            }
        },
        _ => {},
    }
}

/// A pushback component never exceeds the direction's magnitude, which
/// itself is at most the combined radius.
pub proof fn lemma_push_component_bounds(w: int, dir: int, range: int, dist: int)
    requires
        0 <= w <= SCALE,
        0 <= dist < range <= PUSH_LIMIT,
        -range <= dir <= range,
    ensures
        -PUSH_LIMIT <= push_component(w, dir, range, dist) <= PUSH_LIMIT,
        -abs(dir) <= push_component(w, dir, range, dist) <= abs(dir),
{
    let gap = range - dist;
    let num = w * (abs(dir) as int) * gap;
    let den = range * SCALE;
    assert(0 <= num && num <= den * (abs(dir) as int) && den > 0) by (nonlinear_arith)
        requires
            0 <= w <= SCALE,
            0 < gap <= range,
            0 <= abs(dir),
            SCALE == 1000i64,
            range > 0,
            num == w * (abs(dir) as int) * gap,
            den == range * SCALE,
    ;
    vstd::arithmetic::div_mod::lemma_div_is_ordered(num, den * (abs(dir) as int), den);
    vstd::arithmetic::div_mod::lemma_div_multiples_vanish(abs(dir) as int, den);
    vstd::arithmetic::div_mod::lemma_div_pos_is_pos(num, den);
}

/// Both components of a pair's pushback stay within [`PUSH_LIMIT`]:
/// overlapping centers are closer than the combined radius.
pub proof fn lemma_pair_pushback_bounds(
    p1: Vec2I,
    c1: CircleCollider,
    p2: Vec2I,
    c2: CircleCollider,
    first_lower: bool,
)
    requires
        c1.wf(),
        c2.wf(),
        pair_overlapping(p1, p2, c1.radius + c2.radius),
    ensures
        -PUSH_LIMIT <= pair_pushback(p1, c1, p2, c2, first_lower).0 <= PUSH_LIMIT,
        -PUSH_LIMIT <= pair_pushback(p1, c1, p2, c2, first_lower).1 <= PUSH_LIMIT,
{
    let range = (c1.radius + c2.radius) as int;
    let dx = p1.x - p2.x;
    let dy = p1.y - p2.y;
    let d2 = dx * dx + dy * dy;
    assert(abs(dx) * abs(dx) == dx * dx && abs(dy) * abs(dy) == dy * dy && dx * dx >= 0 && dy
        * dy >= 0) by (nonlinear_arith);
    let dist = sqrt_floor(d2 as nat) as int;
    crate::num::lemma_sqrt_floor_bounds(d2 as nat);
    assert(range > 0) by (nonlinear_arith)
        requires
            range * range > d2,
            d2 >= 0,
            range >= 0,
    ;
    if dist >= range {
        assert(dist * dist >= range * range) by (nonlinear_arith)
            requires
                dist >= range >= 0,
        ;
    }
    assert(dist < range);
    crate::num::lemma_sqrt_floor_covers(d2 as nat, abs(dx));
    crate::num::lemma_sqrt_floor_covers(d2 as nat, abs(dy));
    lemma_mass_scale_bounds(c1.mass, c2.mass);
    let w = mass_scale(c1.mass, c2.mass);
    if d2 != 0 {
        lemma_push_component_bounds(w, dx, range, dist);
        lemma_push_component_bounds(w, dy, range, dist);
    } else {
        let dirx = if first_lower {
            -range
        } else {
            range
        };
        lemma_push_component_bounds(w, dirx, range, dist);
        lemma_push_component_bounds(w, 0, range, dist);
    }
}

/// What entity `i` accumulates while scanning entities `[0, j)` of `s`:
/// offset components, contribution count, and the overlap list. A pair is
/// skipped unless both carry a collider and their circles overlap; the
/// overlap is recorded if `i` detects; the pushback contributes if both
/// sides have pushback enabled.
pub open spec fn scan_acc(s: Seq<Entity>, i: int, j: int) -> (int, int, int, Seq<usize>)
    decreases j,
{
    if j <= 0 {
        (0, 0, 0, Seq::<usize>::empty())
    } else {
        let prev = scan_acc(s, i, j - 1);
        let jj = j - 1;
        if jj == i || s[jj].bundle is None || s[i].bundle is None {
            prev
        } else {
            let c1 = s[i].bundle.unwrap().collider;
            let c2 = s[jj].bundle.unwrap().collider;
            if !pair_overlapping(s[i].pos, s[jj].pos, c1.radius + c2.radius) {
                prev
            } else {
                let hits = if c1.detect {
                    prev.3.push(jj as usize)
                } else {
                    prev.3
                };
                if c1.pushback && c2.pushback {
                    let pb = pair_pushback(s[i].pos, c1, s[jj].pos, c2, i < jj);
                    (prev.0 + pb.0, prev.1 + pb.1, prev.2 + 1, hits)
                } else {
                    (prev.0, prev.1, prev.2, hits)
                }
            }
        }
    }
}

/// The scan's accumulator keeps its budget: the offset is a sum of `count`
/// contributions of at most [`PUSH_LIMIT`] each, and at most one
/// contribution and one recorded overlap arise per entity scanned.
pub proof fn lemma_scan_acc_bounds(s: Seq<Entity>, i: int, j: int)
    requires
        0 <= i < s.len(),
        0 <= j <= s.len(),
        forall|k: int| 0 <= k < s.len() ==> (#[trigger] s[k]).wf(),
    ensures
        0 <= scan_acc(s, i, j).2 <= j,
        -(scan_acc(s, i, j).2 * PUSH_LIMIT) <= scan_acc(s, i, j).0 <= scan_acc(s, i, j).2
            * PUSH_LIMIT,
        -(scan_acc(s, i, j).2 * PUSH_LIMIT) <= scan_acc(s, i, j).1 <= scan_acc(s, i, j).2
            * PUSH_LIMIT,
        scan_acc(s, i, j).3.len() <= j,
    decreases j,
{
    if j > 0 {
        lemma_scan_acc_bounds(s, i, j - 1);
        let jj = j - 1;
        if !(jj == i || s[jj].bundle is None || s[i].bundle is None) {
            let c1 = s[i].bundle.unwrap().collider;
            let c2 = s[jj].bundle.unwrap().collider;
            if pair_overlapping(s[i].pos, s[jj].pos, c1.radius + c2.radius) {
                if c1.pushback && c2.pushback {
                    lemma_pair_pushback_bounds(s[i].pos, c1, s[jj].pos, c2, i < jj);
                }
            }
        }
    }
}

/// Pushback is antisymmetric for equal masses: the two orderings of an
/// overlapping pair contribute exactly opposite vectors, whatever the
/// geometry — coincident centers included, where the identity tie-break
/// flips between the orderings.
pub proof fn lemma_pair_pushback_antisymmetric(
    p1: Vec2I,
    c1: CircleCollider,
    p2: Vec2I,
    c2: CircleCollider,
    first_lower: bool,
)
    requires
        c1.wf(),
        c2.wf(),
        c1.mass == c2.mass,
        pair_overlapping(p1, p2, c1.radius + c2.radius),
    ensures
        pair_pushback(p1, c1, p2, c2, first_lower).0 == -pair_pushback(
            p2,
            c2,
            p1,
            c1,
            !first_lower,
        ).0,
        pair_pushback(p1, c1, p2, c2, first_lower).1 == -pair_pushback(
            p2,
            c2,
            p1,
            c1,
            !first_lower,
        ).1,
{
    let range = (c1.radius + c2.radius) as int;
    let dx = p1.x - p2.x;
    let dy = p1.y - p2.y;
    let d2 = dx * dx + dy * dy;
    assert((-dx) * (-dx) == dx * dx && (-dy) * (-dy) == dy * dy && abs(-dx) == abs(dx) && abs(
        -dy,
    ) == abs(dy) && dx * dx >= 0 && dy * dy >= 0) by (nonlinear_arith);
    let dist = sqrt_floor(d2 as nat) as int;
    crate::num::lemma_sqrt_floor_bounds(d2 as nat);
    assert(range > 0) by (nonlinear_arith)
        requires
            range * range > d2,
            d2 >= 0,
            range >= 0,
    ;
    if dist >= range {
        assert(dist * dist >= range * range) by (nonlinear_arith)
            requires
                dist >= range >= 0,
        ;
    }
    let w = mass_scale(c1.mass, c2.mass);
    let den = range * SCALE;
    assert(den > 0) by (nonlinear_arith)
        requires
            den == range * SCALE,
            range > 0,
            SCALE == 1000i64,
    ;
    assert(w * (abs(0) as int) * (range - dist) == 0) by (nonlinear_arith)
        requires
            abs(0) == 0nat,
    ;
    assert(0int / den == 0) by {
        vstd::arithmetic::div_mod::lemma_div_of0(den);
    }
    assert(push_component(w, 0, range, dist) == 0);
}

/// Coincident pushback-enabled colliders of equal positive finite mass
/// take opposite, nonzero corrections along the x axis: the lower
/// identity toward negative x, the higher toward positive x, and neither
/// moves in y.
pub proof fn lemma_coincident_pushback(p: Vec2I, c1: CircleCollider, c2: CircleCollider, m: u64)
    requires
        c1.wf(),
        c2.wf(),
        c1.mass == Mass::Finite(m),
        c2.mass == Mass::Finite(m),
        m > 0,
        c1.radius + c2.radius >= 2,
    ensures
        pair_overlapping(p, p, c1.radius + c2.radius),
        pair_pushback(p, c1, p, c2, true).0 < 0,
        pair_pushback(p, c1, p, c2, false).0 > 0,
        pair_pushback(p, c1, p, c2, true).0 == -pair_pushback(p, c1, p, c2, false).0,
        pair_pushback(p, c1, p, c2, true).1 == 0,
        pair_pushback(p, c1, p, c2, false).1 == 0,
{
    let range = (c1.radius + c2.radius) as int;
    assert(range * range > 0) by (nonlinear_arith)
        requires
            range >= 2,
    ;
    let d2 = (p.x - p.x) * (p.x - p.x) + (p.y - p.y) * (p.y - p.y);
    assert(d2 == 0) by (nonlinear_arith)
        requires
            d2 == (p.x - p.x) * (p.x - p.x) + (p.y - p.y) * (p.y - p.y),
    ;
    assert(sqrt_floor(0nat) == 0);
    let w = mass_scale(c1.mass, c2.mass);
    assert((m as int) * (SCALE as int) == (m as int + m as int) * (HALF_SCALE as int)) by (
    nonlinear_arith)
        requires
            SCALE == 1000i64,
            HALF_SCALE == 500i64,
    ;
    assert(((m as int + m as int) * (HALF_SCALE as int)) / (m as int + m as int)
        == HALF_SCALE) by {
        vstd::arithmetic::div_mod::lemma_div_multiples_vanish(
            HALF_SCALE as int,
            m as int + m as int,
        );
    }
    assert(w == HALF_SCALE);
    let num = w * (abs(range) as int) * (range - 0);
    let den = range * SCALE;
    assert(num >= den && den > 0) by (nonlinear_arith)
        requires
            w == 500,
            range >= 2,
            num == w * (abs(range) as int) * (range - 0),
            den == range * SCALE,
            abs(range) == range,
            SCALE == 1000i64,
    ;
    assert(num / den >= 1) by {
        vstd::arithmetic::div_mod::lemma_div_is_ordered(den, num, den);
        vstd::arithmetic::div_mod::lemma_div_by_self(den);
    }
    assert(abs(-range) == abs(range)) by (nonlinear_arith);
    assert(pair_pushback(p, c1, p, c2, true).0 == -(num / den));
    assert(pair_pushback(p, c1, p, c2, false).0 == num / den);
    let numy = w * (abs(0) as int) * (range - 0);
    assert(numy == 0) by (nonlinear_arith)
        requires
            numy == w * (abs(0) as int) * (range - 0),
            abs(0) == 0nat,
    ;
    assert(0int / den == 0) by {
        vstd::arithmetic::div_mod::lemma_div_of0(den);
    }
}

/// A scan that meets no overlapping collider pair accumulates nothing:
/// zero offset, zero count, an empty overlap list.
pub proof fn lemma_scan_no_overlap(s: Seq<Entity>, i: int, j: int)
    requires
        0 <= i < s.len(),
        0 <= j <= s.len(),
        forall|k: int|
            0 <= k < j && k != i && s[i].bundle is Some && (#[trigger] s[k]).bundle is Some
                ==> !pair_overlapping(
                s[i].pos,
                s[k].pos,
                s[i].bundle.unwrap().collider.radius + s[k].bundle.unwrap().collider.radius,
            ),
    ensures
        scan_acc(s, i, j) == (0int, 0int, 0int, Seq::<usize>::empty()),
    decreases j,
{
    if j > 0 {
        lemma_scan_no_overlap(s, i, j - 1);
        assert(s[j - 1] == s[j - 1]);
    }
}

/// In a two-entity arena of overlapping, pushback-enabled colliders of
/// equal mass, the accumulated offsets are exact opposites.
pub proof fn lemma_pushback_symmetry(s: Seq<Entity>)
    requires
        s.len() == 2,
        s[0].wf(),
        s[1].wf(),
        s[0].bundle is Some,
        s[1].bundle is Some,
        s[0].bundle.unwrap().collider.pushback,
        s[1].bundle.unwrap().collider.pushback,
        s[0].bundle.unwrap().collider.mass == s[1].bundle.unwrap().collider.mass,
        pair_overlapping(
            s[0].pos,
            s[1].pos,
            s[0].bundle.unwrap().collider.radius + s[1].bundle.unwrap().collider.radius,
        ),
    ensures
        scan_acc(s, 0, 2).0 == -scan_acc(s, 1, 2).0,
        scan_acc(s, 0, 2).1 == -scan_acc(s, 1, 2).1,
{
    let c0 = s[0].bundle.unwrap().collider;
    let c1 = s[1].bundle.unwrap().collider;
    let pa = s[0].pos;
    let pb = s[1].pos;
    assert((pb.x - pa.x) * (pb.x - pa.x) == (pa.x - pb.x) * (pa.x - pb.x) && (pb.y - pa.y) * (
    pb.y - pa.y) == (pa.y - pb.y) * (pa.y - pb.y)) by (nonlinear_arith);
    assert(pair_overlapping(pb, pa, c1.radius + c0.radius));
    assert(scan_acc(s, 0, 0) == (0int, 0int, 0int, Seq::<usize>::empty()));
    assert(scan_acc(s, 0, 1) == scan_acc(s, 0, 0));
    assert(scan_acc(s, 0, 2).0 == pair_pushback(pa, c0, pb, c1, true).0);
    assert(scan_acc(s, 0, 2).1 == pair_pushback(pa, c0, pb, c1, true).1);
    assert(scan_acc(s, 1, 0) == (0int, 0int, 0int, Seq::<usize>::empty()));
    assert(scan_acc(s, 1, 1).0 == pair_pushback(pb, c1, pa, c0, false).0);
    assert(scan_acc(s, 1, 1).1 == pair_pushback(pb, c1, pa, c0, false).1);
    assert(scan_acc(s, 1, 2) == scan_acc(s, 1, 1));
    lemma_pair_pushback_antisymmetric(pa, c0, pb, c1, true);
}

/// Everything about the entity except its detector contents: kinematic
/// state, modulators, lock, collider presence and configuration.
pub open spec fn same_but_detector(e2: Entity, e: Entity) -> bool {
    &&& e2.pos == e.pos
    &&& e2.vel == e.vel
    &&& e2.scale == e.scale
    &&& e2.rotation == e.rotation
    &&& e2.chase == e.chase
    &&& e2.scale_mod == e.scale_mod
    &&& e2.spin == e.spin
    &&& e2.dash == e.dash
    &&& e2.lock == e.lock
    &&& match (e2.bundle, e.bundle) {
        (Some(b2), Some(b)) => b2.collider == b.collider,
        (None, None) => true,
        _ => false,
    }
}

/// The accumulator starts the detection pass empty, as the reset phase
/// leaves it.
pub open spec fn detector_ready(e: Entity) -> bool {
    e.bundle matches Some(b) ==> b.collision.is_empty()
}

/// The entity as [`collide`] leaves it: untouched but for the detector,
/// which holds exactly the scan's accumulation over the whole arena.
pub open spec fn collided_entity(e2: Entity, s: Seq<Entity>, i: int) -> bool {
    if s[i].bundle is None {
        e2 == s[i]
    } else {
        let scan = scan_acc(s, i, s.len() as int);
        &&& same_but_detector(e2, s[i])
        &&& (e2.bundle matches Some(b2) && {
            &&& b2.collision.offset.x == scan.0
            &&& b2.collision.offset.y == scan.1
            &&& b2.collision.count == scan.2
            &&& b2.collision.entities@ == scan.3
        })
    }
}

/// All-pairs circular-overlap scan. For every ordered pair of distinct
/// collider-carrying entities whose circles overlap, the first records the
/// second (when detecting) and accumulates the mass-weighted pushback
/// (when both sides push back). Runs on accumulators the reset phase left
/// empty; positions and all other state are untouched.
pub fn collide(entities: &mut Vec<Entity>)
    requires
        old(entities)@.len() <= MAX_ENTITIES,
        forall|k: int| 0 <= k < old(entities)@.len() ==> (#[trigger] old(entities)@[k]).wf(),
        forall|k: int|
            0 <= k < old(entities)@.len() ==> detector_ready(#[trigger] old(entities)@[k]),
    ensures
        final(entities)@.len() == old(entities)@.len(),
        forall|k: int|
            0 <= k < old(entities)@.len() ==> collided_entity(
                #[trigger] final(entities)@[k],
                old(entities)@,
                k,
            ),
        forall|k: int|
            0 <= k < old(entities)@.len() ==> (#[trigger] final(entities)@[k]).wf(),
{
    let n: usize = entities.len();
    let mut i: usize = 0;
    while i < n
        invariant
            n == entities@.len() == old(entities)@.len(),
            n <= MAX_ENTITIES,
            i <= n,
            forall|k: int| 0 <= k < n ==> (#[trigger] old(entities)@[k]).wf(),
            forall|k: int| 0 <= k < n ==> detector_ready(#[trigger] old(entities)@[k]),
            forall|k: int|
                0 <= k < i ==> collided_entity(#[trigger] entities@[k], old(entities)@, k),
            forall|k: int| 0 <= k < i ==> (#[trigger] entities@[k]).wf(),
            forall|k: int| i <= k < n ==> #[trigger] entities@[k] == old(entities)@[k],
        decreases n - i,
    {
        let has: bool = entities[i].bundle.is_some();
        if has {
            let c1: CircleCollider = match &entities[i].bundle {
                Some(b) => b.collider,
                None => CircleCollider {
                    radius: 0,
                    mass: Mass::Infinite,
                    pushback: false,
                    detect: false,
                },
            };
            let p1: Vec2I = entities[i].pos;
            let mut offx: i64 = 0;
            let mut offy: i64 = 0;
            let mut cnt: u32 = 0;
            let mut hits: Vec<usize> = Vec::new();
            let mut j: usize = 0;
            while j < n
                invariant
                    n == entities@.len() == old(entities)@.len(),
                    n <= MAX_ENTITIES,
                    i < n,
                    j <= n,
                    forall|k: int| 0 <= k < n ==> (#[trigger] old(entities)@[k]).wf(),
                    forall|k: int|
                        0 <= k < n ==> detector_ready(#[trigger] old(entities)@[k]),
                    forall|k: int|
                        0 <= k < i ==> collided_entity(
                            #[trigger] entities@[k],
                            old(entities)@,
                            k,
                        ),
                    forall|k: int| 0 <= k < i ==> (#[trigger] entities@[k]).wf(),
                    forall|k: int| i <= k < n ==> #[trigger] entities@[k] == old(entities)@[k],
                    old(entities)@[i as int].bundle is Some,
                    c1 == old(entities)@[i as int].bundle.unwrap().collider,
                    p1 == old(entities)@[i as int].pos,
                    (offx as int, offy as int, cnt as int, hits@) == scan_acc(
                        old(entities)@,
                        i as int,
                        j as int,
                    ),
                decreases n - j,
            {
                proof {
                    lemma_scan_acc_bounds(old(entities)@, i as int, j as int);
                }
                if j != i {
                    let other_has: bool = entities[j].bundle.is_some();
                    if other_has {
                        let c2: CircleCollider = match &entities[j].bundle {
                            Some(b) => b.collider,
                            None => c1,
                        };
                        let p2: Vec2I = entities[j].pos;
                        proof {
                            assert(entities@[j as int] == old(entities)@[j as int]
                                || collided_entity(
                                entities@[j as int],
                                old(entities)@,
                                j as int,
                            ));
                            assert(p2 == old(entities)@[j as int].pos && c2 == old(
                                entities,
                            )@[j as int].bundle.unwrap().collider);
                        }
                        let range: i64 = c1.radius + c2.radius;
                        let dx: i64 = p1.x - p2.x;
                        let dy: i64 = p1.y - p2.y;
                        let adx: u64 = if dx >= 0 {
                            dx as u64
                        } else {
                            (-dx) as u64
                        };
                        let ady: u64 = if dy >= 0 {
                            dy as u64
                        } else {
                            (-dy) as u64
                        };
                        proof {
                            assert((adx as int) * (adx as int) == dx * dx && (adx as int) * (
                            adx as int) <= 4_000_000_000_000_000_000) by (nonlinear_arith)
                                requires
                                    adx == abs(dx as int),
                                    adx <= 2_000_000_000,
                            ;
                            assert((ady as int) * (ady as int) == dy * dy && (ady as int) * (
                            ady as int) <= 4_000_000_000_000_000_000) by (nonlinear_arith)
                                requires
                                    ady == abs(dy as int),
                                    ady <= 2_000_000_000,
                            ;
                            assert((range as int) * (range as int) <= 4_000_000_000_000) by (
                            nonlinear_arith)
                                requires
                                    0 <= range <= 2_000_000,
                            ;
                        }
                        let d2: u64 = adx * adx + ady * ady;
                        let range2: u64 = (range as u64) * (range as u64);
                        if d2 < range2 {
                            if c1.detect {
                                hits.push(j);
                            }
                            if c1.pushback && c2.pushback {
                                let pb: Vec2I = pushback_for_pair(p1, c1, p2, c2, i < j);
                                offx = offx + pb.x;
                                offy = offy + pb.y;
                                cnt = cnt + 1;
                            }
                        }
                    }
                }
                j = j + 1;
            }
            proof {
                lemma_scan_acc_bounds(old(entities)@, i as int, n as int);
            }
            let vel: Vec2I = entities[i].vel;
            let scale: i64 = entities[i].scale;
            let rotation: i64 = entities[i].rotation;
            let chase = entities[i].chase;
            let scale_mod = entities[i].scale_mod;
            let spin = entities[i].spin;
            let dash = entities[i].dash;
            let lock = entities[i].lock;
            entities[i] = Entity {
                pos: p1,
                vel,
                scale,
                rotation,
                chase,
                scale_mod,
                spin,
                dash,
                lock,
                bundle: Some(
                    ColliderBunde {
                        collider: c1,
                        collision: CollisionDetector {
                            offset: Vec2I { x: offx, y: offy },
                            count: cnt,
                            entities: hits,
                        },
                    },
                ),
            };
        }
        i = i + 1;
    }
}

/// The entity as [`apply_pushback`] leaves it: a one-shot positional
/// correction of the averaged accumulated offset where one is pending,
/// everything else (the accumulator included) untouched.
pub open spec fn resolved_entity(e2: Entity, e: Entity) -> bool {
    match e.bundle {
        None => e2 == e,
        Some(b) => if b.collision.offset == (Vec2I { x: 0, y: 0 }) {
            e2 == e
        } else {
            &&& e2.pos.x == e.pos.x + crate::num::div_trunc(
                b.collision.offset.x as int,
                b.collision.count as int,
            )
            &&& e2.pos.y == e.pos.y + crate::num::div_trunc(
                b.collision.offset.y as int,
                b.collision.count as int,
            )
            &&& e2.vel == e.vel
            &&& e2.scale == e.scale
            &&& e2.rotation == e.rotation
            &&& e2.chase == e.chase
            &&& e2.scale_mod == e.scale_mod
            &&& e2.spin == e.spin
            &&& e2.dash == e.dash
            &&& e2.lock == e.lock
            &&& e2.bundle == e.bundle
        },
    }
}

/// Applies each entity's averaged pending correction (`offset / count`)
/// to its position, once. Runs strictly after detection and strictly
/// before reset; accumulators are left as they were for reset to clear.
pub fn apply_pushback(entities: &mut Vec<Entity>)
    requires
        forall|k: int| 0 <= k < old(entities)@.len() ==> (#[trigger] old(entities)@[k]).wf(),
    ensures
        final(entities)@.len() == old(entities)@.len(),
        forall|k: int|
            0 <= k < old(entities)@.len() ==> resolved_entity(
                #[trigger] final(entities)@[k],
                old(entities)@[k],
            ),
        forall|k: int|
            0 <= k < old(entities)@.len() ==> (#[trigger] final(entities)@[k]).pos.in_range(
                (COORD_LIMIT + PUSH_LIMIT) as int,
            ),
{
    let n: usize = entities.len();
    let mut i: usize = 0;
    while i < n
        invariant
            n == entities@.len() == old(entities)@.len(),
            i <= n,
            forall|k: int| 0 <= k < n ==> (#[trigger] old(entities)@[k]).wf(),
            forall|k: int|
                0 <= k < i ==> resolved_entity(#[trigger] entities@[k], old(entities)@[k]),
            forall|k: int|
                0 <= k < i ==> (#[trigger] entities@[k]).pos.in_range(
                    (COORD_LIMIT + PUSH_LIMIT) as int,
                ),
            forall|k: int| i <= k < n ==> #[trigger] entities@[k] == old(entities)@[k],
        decreases n - i,
    {
        let has: bool = entities[i].bundle.is_some();
        if has {
            let off: Vec2I = match &entities[i].bundle {
                Some(b) => b.collision.offset,
                None => Vec2I { x: 0, y: 0 },
            };
            let cnt: u32 = match &entities[i].bundle {
                Some(b) => b.collision.count,
                None => 0,
            };
            if off.x != 0 || off.y != 0 {
                proof {
                    assert(cnt >= 1) by (nonlinear_arith)
                        requires
                            -((cnt as int) * PUSH_LIMIT) <= off.x <= (cnt as int) * PUSH_LIMIT,
                            -((cnt as int) * PUSH_LIMIT) <= off.y <= (cnt as int) * PUSH_LIMIT,
                            off.x != 0 || off.y != 0,
                            PUSH_LIMIT == 2_000_000i64,
                            cnt >= 0,
                    ;
                }
                let ax: i64 = avg_component(off.x, cnt, Ghost(cnt as int * PUSH_LIMIT as int));
                let ay: i64 = avg_component(off.y, cnt, Ghost(cnt as int * PUSH_LIMIT as int));
                let px: i64 = entities[i].pos.x + ax;
                let py: i64 = entities[i].pos.y + ay;
                entities[i].pos = Vec2I { x: px, y: py };
            }
        }
        i = i + 1;
    }
}

/// `off / cnt` rounding toward zero, for an offset within `cnt`
/// contributions of [`PUSH_LIMIT`].
fn avg_component(off: i64, cnt: u32, budget: Ghost<int>) -> (r: i64)
    requires
        cnt >= 1,
        budget@ == cnt as int * PUSH_LIMIT as int,
        -budget@ <= off <= budget@,
    ensures
        r == crate::num::div_trunc(off as int, cnt as int),
        -PUSH_LIMIT <= r <= PUSH_LIMIT,
{
    let a: u64 = if off >= 0 {
        off as u64
    } else {
        (-off) as u64
    };
    proof {
        assert(a <= (cnt as int) * PUSH_LIMIT) by (nonlinear_arith)
            requires
                a == abs(off as int),
                -((cnt as int) * PUSH_LIMIT) <= off <= (cnt as int) * PUSH_LIMIT,
        ;
        vstd::arithmetic::div_mod::lemma_div_is_ordered(
            a as int,
            (cnt as int) * PUSH_LIMIT,
            cnt as int,
        );
        assert((cnt as int) * PUSH_LIMIT == PUSH_LIMIT * (cnt as int)) by (nonlinear_arith);
        vstd::arithmetic::div_mod::lemma_div_multiples_vanish(PUSH_LIMIT as int, cnt as int);
        vstd::arithmetic::div_mod::lemma_div_pos_is_pos(a as int, cnt as int);
    }
    let m: u64 = a / (cnt as u64);
    if off >= 0 {
        m as i64
    } else {
        -(m as i64)
    }
}

/// The entity as [`reset`] leaves it: the accumulator cleared, everything
/// else untouched.
pub open spec fn reset_entity(e2: Entity, e: Entity) -> bool {
    match e.bundle {
        None => e2 == e,
        Some(_) => {
            &&& same_but_detector(e2, e)
            &&& (e2.bundle matches Some(b2) && b2.collision.is_empty())
        },
    }
}

/// Clears every accumulator — offset, count and overlap list — exactly
/// once per tick, after the resolver has consumed them and before the next
/// detection pass.
pub fn reset(entities: &mut Vec<Entity>)
    ensures
        final(entities)@.len() == old(entities)@.len(),
        forall|k: int|
            0 <= k < old(entities)@.len() ==> reset_entity(
                #[trigger] final(entities)@[k],
                old(entities)@[k],
            ),
        forall|k: int|
            0 <= k < old(entities)@.len() ==> detector_ready(#[trigger] final(entities)@[k]),
{
    let n: usize = entities.len();
    let mut i: usize = 0;
    while i < n
        invariant
            n == entities@.len() == old(entities)@.len(),
            i <= n,
            forall|k: int|
                0 <= k < i ==> reset_entity(#[trigger] entities@[k], old(entities)@[k]),
            forall|k: int| 0 <= k < i ==> detector_ready(#[trigger] entities@[k]),
            forall|k: int| i <= k < n ==> #[trigger] entities@[k] == old(entities)@[k],
        decreases n - i,
    {
        let has: bool = entities[i].bundle.is_some();
        if has {
            let c: CircleCollider = match &entities[i].bundle {
                Some(b) => b.collider,
                None => CircleCollider {
                    radius: 0,
                    mass: Mass::Infinite,
                    pushback: false,
                    detect: false,
                },
            };
            let pos: Vec2I = entities[i].pos;
            let vel: Vec2I = entities[i].vel;
            let scale: i64 = entities[i].scale;
            let rotation: i64 = entities[i].rotation;
            let chase = entities[i].chase;
            let scale_mod = entities[i].scale_mod;
            let spin = entities[i].spin;
            let dash = entities[i].dash;
            let lock = entities[i].lock;
            entities[i] = Entity {
                pos,
                vel,
                scale,
                rotation,
                chase,
                scale_mod,
                spin,
                dash,
                lock,
                bundle: Some(
                    ColliderBunde { collider: c, collision: CollisionDetector::empty() },
                ),
            };
        }
        i = i + 1;
    }
}

} // verus!
