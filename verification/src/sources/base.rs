//! The decoded track.

use vstd::prelude::*;
use vstd::arithmetic::div_mod::{
    lemma_div_is_ordered, lemma_div_nonincreasing, lemma_div_pos_is_pos,
};
use crate::controls::{Controls, ControlState};
use crate::sample::Sample;
use crate::source::{track_nanos, DirectAccess, Source, TrackLength, NANOS_PER_SEC};

verus! {

/// A decoded track held in memory: interleaved samples, and the position of
/// the next one to read.
#[derive(Debug)]
pub struct BaseSource {
    pub(crate) current: usize,
    pub(crate) channels: u16,
    pub(crate) sample_rate: u32,
    pub(crate) duration: TrackLength,
    pub(crate) source: Vec<Sample>,
}

impl BaseSource {
    #[verifier::type_invariant]
    pub open(crate) spec fn audible(&self) -> bool {
        &&& self.channels > 0
        &&& self.sample_rate > 0
        &&& self.duration == TrackLength::of_nanos(
            track_nanos(self.source@.len(), self.sample_rate, self.channels),
        )
    }

    /// The samples of the track.
    pub open(crate) spec fn samples(&self) -> Seq<Sample> {
        self.source@
    }

    /// A track of `source` at `sample_rate` frames a second on `channels`
    /// channels, read from its first sample on.
    pub fn new(channels: u16, sample_rate: u32, source: Vec<Sample>) -> (base: Self)
        requires
            channels > 0,
            sample_rate > 0,
        ensures
            base.samples() == source@,
            base.position() == 0,
            base.channel_count() == channels,
            base.rate() == sample_rate,
            base.length() == Some(
                TrackLength::of_nanos(track_nanos(source@.len(), sample_rate, channels)),
            ),
    {
        let samples: u128 = source.len() as u128;
        let all_ns: u128 = (NANOS_PER_SEC as u128) * samples;
        let duration_ns: u128 = all_ns / (sample_rate as u128) / (channels as u128);
        proof {
            lemma_div_pos_is_pos(all_ns as int, sample_rate as int);
            lemma_div_nonincreasing(all_ns as int, sample_rate as int);
            lemma_div_nonincreasing(all_ns as int / sample_rate as int, channels as int);
            lemma_div_is_ordered(duration_ns as int, all_ns as int, 1_000_000_000);
        }
        let duration = TrackLength {
            secs: (duration_ns / (NANOS_PER_SEC as u128)) as u64,
            nanos: (duration_ns % (NANOS_PER_SEC as u128)) as u32,
        };
        BaseSource { current: 0, channels, sample_rate, duration, source }
    }
}

impl Source for BaseSource {
    open(crate) spec fn channel_count(&self) -> u16 {
        self.channels
    }

    open(crate) spec fn rate(&self) -> u32 {
        self.sample_rate
    }

    open(crate) spec fn frame_len(&self) -> Option<usize> {
        None
    }

    open(crate) spec fn length(&self) -> Option<TrackLength> {
        Some(self.duration)
    }

    open(crate) spec fn hint(&self) -> (usize, Option<usize>) {
        (self.source.len(), Some(self.source.len()))
    }

    open(crate) spec fn emitted(&self, controls: ControlState) -> Option<Sample> {
        if self.current < self.source.len() {
            Some(self.source@[self.current as int])
        } else {
            None
        }
    }

    open(crate) spec fn advanced(&self, controls: ControlState) -> Self {
        if self.current < self.source.len() {
            BaseSource { current: (self.current + 1) as usize, ..*self }
        } else {
            *self
        }
    }

    open(crate) spec fn signalled(&self, controls: ControlState) -> ControlState {
        controls
    }

    /// The sample at the position, which then moves on by one; `None`, and
    /// nothing moves, once the position has reached the end of the track.
    #[inline]
    fn next(&mut self, controls: &mut Controls) -> (sample: Option<Sample>) {
        proof {
            use_type_invariant(&*self);
        }
        if self.current < self.source.len() {
            let sample = self.source[self.current];
            self.current = self.current + 1;
            Some(sample)
        } else {
            None
        }
    }

    #[inline]
    fn size_hint(&self) -> (hint: (usize, Option<usize>)) {
        (self.source.len(), Some(self.source.len()))
    }

    #[inline]
    fn current_frame_len(&self) -> (len: Option<usize>) {
        None
    }

    #[inline]
    fn channels(&self) -> (count: u16) {
        proof {
            use_type_invariant(self);
        }
        self.channels
    }

    #[inline]
    fn sample_rate(&self) -> (rate: u32) {
        proof {
            use_type_invariant(self);
        }
        self.sample_rate
    }

    #[inline]
    fn total_duration(&self) -> (length: Option<TrackLength>) {
        Some(self.duration)
    }
}

impl DirectAccess for BaseSource {
    open(crate) spec fn position(&self) -> usize {
        self.current
    }

    open(crate) spec fn moved(&self, index: usize) -> Self {
        BaseSource { current: index, ..*self }
    }

    #[inline]
    fn current(&self) -> (index: usize) {
        self.current
    }

    #[inline]
    fn set_current(&mut self, index: usize) {
        proof {
            use_type_invariant(&*self);
        }
        self.current = index;
    }
}

} // verus!
