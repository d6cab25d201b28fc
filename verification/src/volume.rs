//! The volume: a percentage that never leaves its range.

use vstd::prelude::*;

verus! {

/// The loudest volume, in percent.
pub const FULL_VOLUME: u8 = 100;

/// A percentage held to the range of the volume.
pub open spec fn clamp_volume(percent: int) -> u8 {
    if percent < 0 {
        0
    } else if percent > FULL_VOLUME {
        FULL_VOLUME
    } else {
        percent as u8
    }
}

/// A volume in percent, from silence at 0 to the full amplitude at 100.
#[derive(Copy, Clone, Debug)]
pub struct Volume {
    percent: u8,
}

impl View for Volume {
    type V = u8;

    closed spec fn view(&self) -> u8 {
        self.percent
    }
}

impl Volume {
    #[verifier::type_invariant]
    closed spec fn in_range(&self) -> bool {
        self.percent <= FULL_VOLUME
    }

    /// Full volume.
    #[inline]
    pub fn full() -> (volume: Self)
        ensures
            volume@ == FULL_VOLUME,
    {
        Volume { percent: FULL_VOLUME }
    }

    /// The volume nearest to `percent`: 0 below the range, 100 above it.
    #[inline]
    pub fn clamped(percent: i32) -> (volume: Self)
        ensures
            volume@ == clamp_volume(percent as int),
    {
        if percent < 0 {
            Volume { percent: 0 }
        } else if percent > FULL_VOLUME as i32 {
            Volume { percent: FULL_VOLUME }
        } else {
            Volume { percent: percent as u8 }
        }
    }

    /// The volume in percent.
    #[inline]
    pub fn percent(&self) -> (percent: u8)
        ensures
            percent == self@,
            percent <= FULL_VOLUME,
    {
        proof {
            use_type_invariant(self);
        }
        self.percent
    }
}

} // verus!
