//! Samples and their attenuation.

use vstd::prelude::*;
use crate::volume::{Volume, FULL_VOLUME};

verus! {

/// One value of one channel.
pub type Sample = i16;

/// The sample that stands for the absence of sound.
pub const SILENCE: Sample = 0;

/// `sample` at `percent` of its amplitude, rounded towards silence.
pub open spec fn scaled(sample: Sample, percent: u8) -> int {
    if sample >= 0 {
        (sample * percent) / 100
    } else {
        -(((-sample) * percent) / 100)
    }
}

/// Nothing is heard at volume zero.
pub proof fn lemma_scaled_mute(sample: Sample)
    ensures
        scaled(sample, 0) == 0,
{
}

/// Full volume leaves a sample as it is.
pub proof fn lemma_scaled_full(sample: Sample)
    ensures
        scaled(sample, FULL_VOLUME) == sample,
{
}

/// Silence stays silence at every volume.
pub proof fn lemma_scaled_silence(percent: u8)
    ensures
        scaled(SILENCE, percent) == 0,
{
}

/// Below full volume a sample keeps its sign and does not grow.
pub proof fn lemma_scaled_bounds(sample: Sample, percent: u8)
    requires
        percent <= FULL_VOLUME,
    ensures
        sample >= 0 ==> 0 <= scaled(sample, percent) <= sample,
        sample <= 0 ==> sample <= scaled(sample, percent) <= 0,
{
    if sample >= 0 {
        assert(0 <= sample * percent <= sample * 100) by (nonlinear_arith)
            requires
                0 <= sample,
                0 <= percent <= 100,
        ;
    } else {
        assert(0 <= (-sample) * percent <= (-sample) * 100) by (nonlinear_arith)
            requires
                0 <= -sample,
                0 <= percent <= 100,
        ;
    }
}

/// Scales `sample` to the amplitude that `volume` asks for.
pub fn attenuate(sample: Sample, volume: Volume) -> (out: Sample)
    ensures
        out == scaled(sample, volume@),
{
    let percent: u8 = volume.percent();
    proof {
        lemma_scaled_bounds(sample, percent);
    }
    let wide: i32 = sample as i32;
    let factor: i32 = percent as i32;
    if wide >= 0 {
        assert(0 <= wide * factor <= 32767 * 100) by (nonlinear_arith)
            requires
                0 <= wide <= 32767,
                0 <= factor <= 100,
        ;
        let product: i32 = wide * factor;
        (product / 100) as i16
    } else {
        assert(0 <= (-wide) * factor <= 32768 * 100) by (nonlinear_arith)
            requires
                0 < -wide <= 32768,
                0 <= factor <= 100,
        ;
        let product: i32 = (-wide) * factor;
        (-(product / 100)) as i16
    }
}

} // verus!
