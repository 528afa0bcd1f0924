//! Tween waveforms and beat gates.
//!
//! A [`Tween`] is a pure function from an intra-beat phase to a scalar,
//! shaped by its waveform and endpoint configuration. A [`BeatGate`] decides
//! from the beat count whether a modulator is active this tick.
use vstd::prelude::*;

use crate::error::ConfigError;
use crate::num::{mul_div_trunc, AMP_LIMIT, SCALE, TWEEN_OUT_LIMIT};

verus! {

/// The waveform of a tween.
#[derive(Clone, Copy, Debug, PartialEq, Eq, Structural)]
pub enum TweenType {
    Sawtooth,
    Triangle,
    Square,
}

/// A pure phase-to-scalar waveform. Endpoints `a` and `b` are fixed-point
/// scalars; the phase boundaries `start`, `mid` and `end` live in
/// `[0, SCALE]`, standing for the unit interval.
#[derive(Clone, Copy, Debug, PartialEq, Eq, Structural)]
pub struct Tween {
    pub ttype: TweenType,
    pub a: i64,
    pub b: i64,
    pub start: i64,
    pub mid: i64,
    pub end: i64,
}

/// Linear interpolation from `s` toward `e`: `s + t * (e - s) / SCALE`,
/// where `t` is in SCALE units. `t` above `SCALE` extrapolates past `e`.
pub open spec fn lerp_spec(s: int, e: int, t: int) -> int {
    s + mul_div_trunc(t, e - s, SCALE as int)
}

/// The value a tween takes at phase `p` (in SCALE units):
/// - below `start` the low clamp `a`;
/// - above `end` the high clamp, which for `Triangle` is `a` rather than
///   `b` — an intentional asymmetry of the waveform family;
/// - in between, the shape: `Sawtooth` interpolates over the raw phase,
///   `Triangle` rescales the phase by `mid` on the rising side and by
///   `SCALE - mid` on the falling side (the falling side is not re-clamped,
///   so phases near `SCALE` with a small remaining window extrapolate past
///   `b`), and `Square` steps from `a` to `b` at `mid`.
pub open spec fn tween_value(t: Tween, p: int) -> int {
    if p < t.start {
        t.a as int
    } else if p > t.end {
        match t.ttype {
            TweenType::Triangle => t.a as int,
            _ => t.b as int,
        }
    } else {
        match t.ttype {
            TweenType::Sawtooth => lerp_spec(t.a as int, t.b as int, p),
            TweenType::Triangle => if p < t.mid {
                lerp_spec(t.a as int, t.b as int, p * SCALE / (t.mid as int))
            } else {
                lerp_spec(t.a as int, t.b as int, p * SCALE / (SCALE - t.mid as int))
            },
            TweenType::Square => if p < t.mid {
                t.a as int
            } else {
                t.b as int
            },
        }
    }
}

/// `s + t * (e - s) / SCALE` over machine words, division truncating
/// toward zero.
fn lerp(s: i64, e: i64, t: i64) -> (r: i64)
    requires
        -AMP_LIMIT <= s <= AMP_LIMIT,
        -AMP_LIMIT <= e <= AMP_LIMIT,
        0 <= t <= SCALE * SCALE,
    ensures
        r == lerp_spec(s as int, e as int, t as int),
        -TWEEN_OUT_LIMIT <= r <= TWEEN_OUT_LIMIT,
{
    let diff: i64 = e - s;
    if diff >= 0 {
        proof {
            assert((t as int) * (diff as int) <= 2_000_000_000_000_000) by (nonlinear_arith)
                requires
                    0 <= t <= 1_000_000,
                    0 <= diff <= 2_000_000_000,
            ;
        }
        let prod: u64 = (t as u64) * (diff as u64);
        proof {
            vstd::arithmetic::div_mod::lemma_multiply_divide_le(
                prod as int,
                SCALE as int,
                2_000_000_000_000,
            );
            vstd::arithmetic::div_mod::lemma_div_pos_is_pos(prod as int, SCALE as int);
        }
        let q: u64 = prod / (SCALE as u64);
        s + (q as i64)
    } else {
        let neg: i64 = -diff;
        proof {
            assert((t as int) * (neg as int) <= 2_000_000_000_000_000) by (nonlinear_arith)
                requires
                    0 <= t <= 1_000_000,
                    0 <= neg <= 2_000_000_000,
            ;
        }
        let prod: u64 = (t as u64) * (neg as u64);
        proof {
            vstd::arithmetic::div_mod::lemma_multiply_divide_le(
                prod as int,
                SCALE as int,
                2_000_000_000_000,
            );
            vstd::arithmetic::div_mod::lemma_div_pos_is_pos(prod as int, SCALE as int);
            assert((t as int) * ((e - s) as int) == -(prod as int)) by (nonlinear_arith)
                requires
                    prod == (t as int) * (neg as int),
                    neg == -((e - s) as int),
            ;
        }
        let q: u64 = prod / (SCALE as u64);
        s - (q as i64)
    }
}

impl Tween {
    /// The configuration invariant: bounded endpoints, phase boundaries in
    /// the unit interval, and a triangle `mid` strictly inside it (a
    /// triangle with `mid == SCALE` would divide by zero when falling).
    pub open spec fn wf(self) -> bool {
        &&& -AMP_LIMIT <= self.a <= AMP_LIMIT
        &&& -AMP_LIMIT <= self.b <= AMP_LIMIT
        &&& 0 <= self.start <= SCALE
        &&& 0 <= self.mid <= SCALE
        &&& 0 <= self.end <= SCALE
        &&& (self.ttype == TweenType::Triangle ==> self.mid < SCALE)
    }

    /// Validates a configuration eagerly; out-of-range phase boundaries and
    /// a degenerate triangle `mid` are configuration errors.
    pub fn new(ttype: TweenType, a: i64, b: i64, start: i64, mid: i64, end: i64) -> (r: Result<
        Tween,
        ConfigError,
    >)
        requires
            -AMP_LIMIT <= a <= AMP_LIMIT,
            -AMP_LIMIT <= b <= AMP_LIMIT,
        ensures
            !(0 <= start <= SCALE && 0 <= mid <= SCALE && 0 <= end <= SCALE) ==> r == Err::<
                Tween,
                ConfigError,
            >(ConfigError::PhaseOutOfRange),
            (0 <= start <= SCALE && 0 <= mid <= SCALE && 0 <= end <= SCALE && ttype
                == TweenType::Triangle && mid == SCALE) ==> r == Err::<Tween, ConfigError>(
                ConfigError::DegenerateTriangleMid,
            ),
            (0 <= start <= SCALE && 0 <= mid <= SCALE && 0 <= end <= SCALE && !(ttype
                == TweenType::Triangle && mid == SCALE)) ==> r == Ok::<Tween, ConfigError>(
                Tween { ttype, a, b, start, mid, end },
            ),
            r matches Ok(t) ==> t.wf(),
    {
        if start < 0 || start > SCALE || mid < 0 || mid > SCALE || end < 0 || end > SCALE {
            Err(ConfigError::PhaseOutOfRange)
        } else if matches!(ttype, TweenType::Triangle) && mid == SCALE {
            Err(ConfigError::DegenerateTriangleMid)
        } else {
            Ok(Tween { ttype, a, b, start, mid, end })
        }
    }

    /// The waveform's value at phase `p`, given in SCALE units. Pure: the
    /// result is a function of the configuration and `p` alone.
    pub fn evaluate(&self, p: i64) -> (r: i64)
        requires
            self.wf(),
            0 <= p <= SCALE,
        ensures
            r == tween_value(*self, p as int),
            -TWEEN_OUT_LIMIT <= r <= TWEEN_OUT_LIMIT,
    {
        if p < self.start {
            return self.a;
        }
        if p > self.end {
            return match self.ttype {
                TweenType::Triangle => self.a,
                _ => self.b,
            };
        }
        match self.ttype {
            TweenType::Sawtooth => lerp(self.a, self.b, p),
            TweenType::Triangle => {
                if p < self.mid {
                    proof {
                        assert((p as int) * (SCALE as int) <= 1_000_000) by (nonlinear_arith)
                            requires
                                0 <= p <= 1000,
                                SCALE == 1000i64,
                        ;
                    }
                    let scaled: u64 = (p as u64) * (SCALE as u64);
                    let t: u64 = scaled / (self.mid as u64);
                    proof {
                        vstd::arithmetic::div_mod::lemma_div_nonincreasing(
                            scaled as int,
                            self.mid as int,
                        );
                        vstd::arithmetic::div_mod::lemma_div_pos_is_pos(
                            scaled as int,
                            self.mid as int,
                        );
                    }
                    lerp(self.a, self.b, t as i64)
                } else {
                    proof {
                        assert((p as int) * (SCALE as int) <= 1_000_000) by (nonlinear_arith)
                            requires
                                0 <= p <= 1000,
                                SCALE == 1000i64,
                        ;
                    }
                    let scaled: u64 = (p as u64) * (SCALE as u64);
                    let window: i64 = SCALE - self.mid;
                    let t: u64 = scaled / (window as u64);
                    proof {
                        vstd::arithmetic::div_mod::lemma_div_nonincreasing(
                            scaled as int,
                            window as int,
                        );
                        vstd::arithmetic::div_mod::lemma_div_pos_is_pos(
                            scaled as int,
                            window as int,
                        );
                    }
                    lerp(self.a, self.b, t as i64)
                }
            },
            TweenType::Square => {
                if p < self.mid {
                    self.a
                } else {
                    self.b
                }
            },
        }
    }
}

impl Default for Tween {
    /// A flat tween: both endpoints at `1.0`, the whole unit interval.
    fn default() -> (r: Tween)
        ensures
            r == (Tween {
                ttype: TweenType::Sawtooth,
                a: SCALE,
                b: SCALE,
                start: 0,
                mid: 500,
                end: SCALE,
            }),
            r.wf(),
    {
        Tween { ttype: TweenType::Sawtooth, a: SCALE, b: SCALE, start: 0, mid: 500, end: SCALE }
    }
}

/// Evaluation is deterministic: any two results of [`Tween::evaluate`] on
/// identical configuration and phase agree, since each equals
/// [`tween_value`] of the inputs alone.
pub proof fn lemma_evaluate_pure(t: Tween, p: int, r1: int, r2: int)
    requires
        r1 == tween_value(t, p),
        r2 == tween_value(t, p),
    ensures
        r1 == r2,
{
}

/// Decides from the beat count whether a modulator fires this beat.
#[derive(Clone, Copy, Debug, PartialEq, Eq, Structural)]
pub struct BeatGate {
    /// Length of this gate's cycle in beats; always positive.
    pub frequency: u64,
    /// The residue of the cycle on which this gate is open.
    pub on_beat: u64,
}

impl BeatGate {
    /// This gate's invariant: a positive frequency (a zero frequency would
    /// take a modulus by zero).
    pub open spec fn wf(self) -> bool {
        self.frequency > 0
    }

    /// A gate is open exactly on beats congruent to `on_beat` modulo
    /// `frequency`.
    pub open spec fn active(self, beat_count: u64) -> bool {
        beat_count % self.frequency == self.on_beat
    }

    /// Validates a gate configuration; a zero frequency is a configuration
    /// error.
    pub fn new(frequency: u64, on_beat: u64) -> (r: Result<BeatGate, ConfigError>)
        ensures
            frequency == 0 ==> r == Err::<BeatGate, ConfigError>(ConfigError::ZeroFrequency),
            frequency > 0 ==> r == Ok::<BeatGate, ConfigError>(BeatGate { frequency, on_beat }),
            r matches Ok(g) ==> g.wf(),
    {
        if frequency == 0 {
            Err(ConfigError::ZeroFrequency)
        } else {
            Ok(BeatGate { frequency, on_beat })
        }
    }

    /// Whether this gate is open on the given beat.
    pub fn is_active(&self, beat_count: u64) -> (r: bool)
        requires
            self.wf(),
        ensures
            r == self.active(beat_count),
    {
        beat_count % self.frequency == self.on_beat
    }
}

} // verus!
