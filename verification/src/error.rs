//! Configuration errors: invalid parameters are rejected eagerly at
//! construction, never tolerated at tick time.
use vstd::prelude::*;

verus! {

/// A rejected configuration value.
#[derive(Clone, Copy, Debug, PartialEq, Eq, Structural)]
pub enum ConfigError {
    /// A beat clock was given a period of zero or less.
    NonPositivePeriod,
    /// A beat gate was given a frequency of zero, which would divide by zero.
    ZeroFrequency,
    /// A collider was given a negative radius.
    NegativeRadius,
    /// A tween phase boundary lies outside the unit interval.
    PhaseOutOfRange,
    /// A triangle tween whose `mid` sits at the end of the unit interval
    /// would divide by zero on its falling branch.
    DegenerateTriangleMid,
}

} // verus!
