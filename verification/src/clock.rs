//! The beat clock: a periodic timer that yields a monotonically increasing
//! beat count and an intra-beat phase in `[0, 1)`.
use vstd::prelude::*;

use crate::error::ConfigError;
use crate::num::{PERIOD_LIMIT, SCALE};

verus! {

/// A periodic software timer. Durations are fixed-point: `period == 500`
/// means half a time unit per beat.
#[derive(Clone, Copy, Debug, PartialEq, Eq, Structural)]
pub struct BeatClock {
    /// Length of one beat; always positive.
    pub period: u64,
    /// Time elapsed within the current beat; always below `period`.
    pub elapsed: u64,
    /// Number of whole beats completed since the clock started.
    pub beat_count: u64,
}

impl BeatClock {
    /// The clock's invariant: a positive, bounded period, and an elapsed
    /// time normalized into the current beat.
    pub open spec fn wf(self) -> bool {
        0 < self.period <= PERIOD_LIMIT && self.elapsed < self.period
    }

    /// Fractional position within the current beat, scaled by [`SCALE`].
    pub open spec fn phase(self) -> int {
        self.elapsed * SCALE / (self.period as int)
    }

    /// Makes a clock at beat zero. A period of zero or less is a
    /// configuration error.
    pub fn new(period: i64) -> (r: Result<BeatClock, ConfigError>)
        requires
            period <= PERIOD_LIMIT,
        ensures
            period <= 0 ==> r == Err::<BeatClock, ConfigError>(ConfigError::NonPositivePeriod),
            period > 0 ==> r == Ok::<BeatClock, ConfigError>(
                BeatClock { period: period as u64, elapsed: 0, beat_count: 0 },
            ),
            period > 0 ==> (r matches Ok(c) && c.wf()),
    {
        if period <= 0 {
            Err(ConfigError::NonPositivePeriod)
        } else {
            Ok(BeatClock { period: period as u64, elapsed: 0, beat_count: 0 })
        }
    }

    /// Adds `dt` to the elapsed time, normalizing into the current beat:
    /// each whole period crossed increments the beat count by one, so a
    /// single large `dt` may add several beats at once.
    pub fn advance(&mut self, dt: u64)
        requires
            old(self).wf(),
            old(self).elapsed + dt <= u64::MAX,
            old(self).beat_count + (old(self).elapsed + dt) / (old(self).period as int)
                <= u64::MAX,
        ensures
            final(self).period == old(self).period,
            final(self).elapsed == (old(self).elapsed + dt) % (old(self).period as int),
            final(self).beat_count == old(self).beat_count + (old(self).elapsed + dt) / (
            old(self).period as int),
            final(self).wf(),
    {
        let total: u64 = self.elapsed + dt;
        let crossed: u64 = total / self.period;
        self.elapsed = total % self.period;
        self.beat_count = self.beat_count + crossed;
    }

    /// The intra-beat phase, in `[0, SCALE)`.
    pub fn percent(&self) -> (r: i64)
        requires
            self.wf(),
        ensures
            r == self.phase(),
            0 <= r < SCALE,
    {
        let scaled: u64 = self.elapsed * (SCALE as u64);
        let q: u64 = scaled / self.period;
        proof {
            assert(scaled < (self.period as int) * (SCALE as int)) by (nonlinear_arith)
                requires
                    scaled == self.elapsed * (SCALE as int),
                    self.elapsed < self.period,
                    SCALE == 1000i64,
            ;
            vstd::arithmetic::div_mod::lemma_multiply_divide_lt(
                scaled as int,
                self.period as int,
                SCALE as int,
            );
            vstd::arithmetic::div_mod::lemma_div_pos_is_pos(scaled as int, self.period as int);
        }
        q as i64
    }

    /// The fraction of the current beat still to come, in `(0, SCALE]`.
    pub fn percent_left(&self) -> (r: i64)
        requires
            self.wf(),
        ensures
            r == SCALE - self.phase(),
            0 < r <= SCALE,
    {
        let p = self.percent();
        SCALE - p
    }
}

} // verus!
