//! Plane vectors over fixed-point integers.
use vstd::math::abs;
use vstd::prelude::*;

use crate::num::{isqrt, lemma_sqrt_floor_covers, sqrt_floor, COORD_LIMIT, DIR_LIMIT,
    TWEEN_OUT_LIMIT};

verus! {

/// A plane vector; components are fixed-point scalars.
#[derive(Clone, Copy, Debug, PartialEq, Eq, Structural)]
pub struct Vec2I {
    pub x: i64,
    pub y: i64,
}

/// The squared Euclidean length of a vector.
pub open spec fn norm2(v: Vec2I) -> int {
    v.x * v.x + v.y * v.y
}

/// The Euclidean length of a vector, rounded down.
pub open spec fn length_spec(v: Vec2I) -> int {
    sqrt_floor(norm2(v) as nat) as int
}

/// One component of `v * s / |v|`: the magnitudes multiplied and divided
/// with truncation, the signs of the component and the scalar reapplied.
pub open spec fn scale_component(c: int, s: int, len: int) -> int {
    let m = (abs(c) * abs(s)) as int / len;
    if (c < 0) != (s < 0) {
        -m
    } else {
        m
    }
}

/// `v` rescaled to magnitude `|s|` (direction flipped when `s` is
/// negative); the zero vector stays zero.
pub open spec fn scale_to_length_spec(v: Vec2I, s: int) -> Vec2I {
    let len = length_spec(v);
    if len == 0 {
        Vec2I { x: 0, y: 0 }
    } else {
        Vec2I {
            x: scale_component(v.x as int, s, len) as i64,
            y: scale_component(v.y as int, s, len) as i64,
        }
    }
}

/// The vector with the larger component kept and the other zeroed; ties go
/// to the y axis.
pub open spec fn dominant_axis_spec(v: Vec2I) -> Vec2I {
    if abs(v.x as int) > abs(v.y as int) {
        Vec2I { x: v.x, y: 0 }
    } else {
        Vec2I { x: 0, y: v.y }
    }
}

impl Vec2I {
    /// Both components within `limit` in magnitude.
    pub open spec fn in_range(self, limit: int) -> bool {
        -limit <= self.x <= limit && -limit <= self.y <= limit
    }

    /// Component-wise difference.
    pub fn minus(self, other: Vec2I) -> (r: Vec2I)
        requires
            self.in_range(COORD_LIMIT as int),
            other.in_range(COORD_LIMIT as int),
        ensures
            r.x == self.x - other.x,
            r.y == self.y - other.y,
            r.in_range(DIR_LIMIT as int),
    {
        Vec2I { x: self.x - other.x, y: self.y - other.y }
    }

    /// Keeps the dominant component, zeroing the other.
    pub fn dominant_axis(self) -> (r: Vec2I)
        requires
            self.in_range(DIR_LIMIT as int),
        ensures
            r == dominant_axis_spec(self),
            r.in_range(DIR_LIMIT as int),
    {
        let ax: i64 = if self.x >= 0 {
            self.x
        } else {
            -self.x
        };
        let ay: i64 = if self.y >= 0 {
            self.y
        } else {
            -self.y
        };
        if ax > ay {
            Vec2I { x: self.x, y: 0 }
        } else {
            Vec2I { x: 0, y: self.y }
        }
    }

    /// The Euclidean length, rounded down.
    pub fn length(self) -> (r: u64)
        requires
            self.in_range(DIR_LIMIT as int),
        ensures
            r == length_spec(self),
            r <= 3_000_000_000u64,
    {
        let ax: u64 = if self.x >= 0 {
            self.x as u64
        } else {
            (-self.x) as u64
        };
        let ay: u64 = if self.y >= 0 {
            self.y as u64
        } else {
            (-self.y) as u64
        };
        proof {
            assert((ax as int) * (ax as int) == self.x * self.x && (ax as int) * (ax as int)
                <= 4_000_000_000_000_000_000) by (nonlinear_arith)
                requires
                    ax == abs(self.x as int),
                    ax <= 2_000_000_000,
            ;
            assert((ay as int) * (ay as int) == self.y * self.y && (ay as int) * (ay as int)
                <= 4_000_000_000_000_000_000) by (nonlinear_arith)
                requires
                    ay == abs(self.y as int),
                    ay <= 2_000_000_000,
            ;
        }
        let d2: u64 = ax * ax + ay * ay;
        let len: u64 = isqrt(d2);
        proof {
            assert(len * len <= d2 < (len + 1) * (len + 1));
            if len > 3_000_000_000u64 {
                assert((len as int) * (len as int) > 8_000_000_000_000_000_000) by (
                nonlinear_arith)
                    requires
                        len > 3_000_000_000u64,
                ;
            }
        }
        len
    }

    /// `self * s / |self|`: the vector rescaled to magnitude `|s|`, with
    /// the direction flipped when `s` is negative. The zero vector has no
    /// direction and stays zero.
    pub fn scale_to_length(self, s: i64) -> (r: Vec2I)
        requires
            self.in_range(DIR_LIMIT as int),
            -TWEEN_OUT_LIMIT <= s <= TWEEN_OUT_LIMIT,
        ensures
            r == scale_to_length_spec(self, s as int),
            r.in_range(abs(s as int) as int),
    {
        let len: u64 = self.length();
        if len == 0 {
            return Vec2I { x: 0, y: 0 };
        }
        proof {
            assert(self.x * self.x >= 0 && self.y * self.y >= 0) by (nonlinear_arith);
        }
        let su: u64 = if s >= 0 {
            s as u64
        } else {
            (-s) as u64
        };
        let rx: i64 = scale_component_exec(self.x, su, len, Ghost(norm2(self) as nat));
        let ry: i64 = scale_component_exec(self.y, su, len, Ghost(norm2(self) as nat));
        let r = Vec2I {
            x: if s >= 0 {
                rx
            } else {
                -rx
            },
            y: if s >= 0 {
                ry
            } else {
                -ry
            },
        };
        proof {
            assert(r.x == scale_component(self.x as int, s as int, len as int) && r.y
                == scale_component(self.y as int, s as int, len as int));
        }
        r
    }
}

/// `|c| * s / len` with the sign of `c` reapplied, for a component `c` of a
/// vector whose squared length `n2` has the positive root `len`.
fn scale_component_exec(c: i64, s: u64, len: u64, n2: Ghost<nat>) -> (r: i64)
    requires
        -DIR_LIMIT <= c <= DIR_LIMIT,
        s <= TWEEN_OUT_LIMIT,
        len > 0,
        len == sqrt_floor(n2@),
        c * c <= n2@,
    ensures
        r == (if c < 0 {
            -((abs(c as int) * s) as int / (len as int))
        } else {
            (abs(c as int) * s) as int / (len as int)
        }),
        -s <= r <= s,
{
    let ac: u64 = if c >= 0 {
        c as u64
    } else {
        (-c) as u64
    };
    proof {
        assert((ac as int) * (ac as int) == c * c) by (nonlinear_arith)
            requires
                ac == abs(c as int),
        ;
        lemma_sqrt_floor_covers(n2@, ac as nat);
        assert((ac as u128) * (s as u128) <= u128::MAX) by (nonlinear_arith)
            requires
                ac <= u64::MAX,
                s <= u64::MAX,
        ;
        assert((ac as int) * (s as int) <= (len as int) * (s as int)) by (nonlinear_arith)
            requires
                0 <= ac <= len,
                0 <= s,
        ;
        vstd::arithmetic::div_mod::lemma_div_is_ordered(
            (ac as int) * (s as int),
            (len as int) * (s as int),
            len as int,
        );
        vstd::arithmetic::div_mod::lemma_div_multiples_vanish(s as int, len as int);
        vstd::arithmetic::div_mod::lemma_div_pos_is_pos((ac as int) * (s as int), len as int);
    }
    let mag: u128 = ((ac as u128) * (s as u128)) / (len as u128);
    let m: i64 = mag as i64;
    if c < 0 {
        -m
    } else {
        m
    }
}

} // verus!
