//! The editing parameters of a session, each counted in tenths.
use vstd::prelude::*;

verus! {

/// Lowest value a ratio (pitch, envelope, volume) may be stepped down to.
pub const MIN_RATIO: u64 = 1;

/// Lowest frame period, in tenths of a millisecond, that a step down may reach.
pub const MIN_SPEED: u64 = 30;

/// The values that the editors adjust; each is in tenths.
#[derive(Clone, Copy, Debug, PartialEq, Eq, Structural)]
pub struct SessionParameters {
    /// Pitch factor applied on commit.
    pub pitch_ratio: u64,
    /// Frame period offered to resynthesis on commit.
    pub speed: u64,
    /// Envelope warp factor applied on commit.
    pub spectral_ratio: u64,
    /// Gain applied to the resynthesised samples on playback.
    pub volume: u64,
}

/// `v` one tenth higher; at `u64::MAX` the step is refused.
pub open spec fn stepped_up(v: u64) -> u64 {
    if v < u64::MAX { (v + 1) as u64 } else { v }
}

/// `v` one tenth lower when that stays at or above `floor`; otherwise `v`.
pub open spec fn stepped_down(v: u64, floor: u64) -> u64 {
    if v > floor { (v - 1) as u64 } else { v }
}

/// The parameters right after analysis of a clip whose frame period is
/// `frame_period` tenths of a millisecond.
pub open spec fn initial_parameters(frame_period: u64) -> SessionParameters {
    SessionParameters { pitch_ratio: 10, speed: frame_period, spectral_ratio: 10, volume: 10 }
}

/// Parameters whose ratios can all be applied.
pub open spec fn parameters_valid(p: SessionParameters) -> bool {
    p.pitch_ratio >= MIN_RATIO && p.spectral_ratio >= MIN_RATIO && p.volume >= MIN_RATIO
}

/// Raises `v` by one tenth, refusing the step at the top of the range.
pub fn step_up(v: u64) -> (r: u64)
    ensures
        r == stepped_up(v),
        v < u64::MAX ==> r == v + 1,
{
    if v < u64::MAX {
        v + 1
    } else {
        v
    }
}

/// Lowers `v` by one tenth unless that would take it below `floor`, in
/// which case `v` is returned unchanged.
pub fn step_down(v: u64, floor: u64) -> (r: u64)
    ensures
        r == stepped_down(v, floor),
        r >= floor || r == v,
        v <= floor ==> r == v,
{
    if v > floor {
        v - 1
    } else {
        v
    }
}

impl SessionParameters {
    /// Defaults for a fresh clip: every ratio at 1.0, speed at the clip's own
    /// frame period.
    pub fn new(frame_period: u64) -> (r: SessionParameters)
        ensures
            r == initial_parameters(frame_period),
    {
        SessionParameters { pitch_ratio: 10, speed: frame_period, spectral_ratio: 10, volume: 10 }
    }
}

} // verus!
