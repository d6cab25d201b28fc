//! The stage that applies the volume.

use vstd::prelude::*;
use crate::controls::{Controls, ControlState};
use crate::volume::{Volume, FULL_VOLUME};
use crate::sample::{attenuate, scaled, Sample};
use crate::source::{Source, TrackLength};

verus! {

/// Scales every sample of the wrapped source to a volume in percent.
#[derive(Debug)]
pub struct AmplifiedSource<T: Source> {
    pub(crate) source: T,
    pub(crate) volume: Volume,
}

impl<T: Source> AmplifiedSource<T> {
    /// The source that the stage reads.
    pub open(crate) spec fn wrapped(&self) -> T {
        self.source
    }

    /// The volume in percent.
    pub open(crate) spec fn level(&self) -> u8 {
        self.volume@
    }

    /// `source` at full volume.
    #[inline]
    pub fn new(source: T) -> (stage: Self)
        ensures
            stage.wrapped() == source,
            stage.level() == FULL_VOLUME,
    {
        AmplifiedSource { source, volume: Volume::full() }
    }

    #[inline]
    pub fn set_volume(&mut self, volume: Volume)
        ensures
            final(self).wrapped() == old(self).wrapped(),
            final(self).level() == volume@,
    {
        self.volume = volume;
    }

    /// The volume in percent.
    #[inline]
    pub fn volume(&self) -> (percent: u8)
        ensures
            percent == self.level(),
            percent <= FULL_VOLUME,
    {
        self.volume.percent()
    }

    /// The source that the stage reads.
    #[inline]
    pub fn inner(&self) -> (source: &T)
        ensures
            *source == self.wrapped(),
    {
        &self.source
    }
}

impl<T: Source> Source for AmplifiedSource<T> {
    open(crate) spec fn channel_count(&self) -> u16 {
        self.source.channel_count()
    }

    open(crate) spec fn rate(&self) -> u32 {
        self.source.rate()
    }

    open(crate) spec fn frame_len(&self) -> Option<usize> {
        self.source.frame_len()
    }

    open(crate) spec fn length(&self) -> Option<TrackLength> {
        self.source.length()
    }

    open(crate) spec fn hint(&self) -> (usize, Option<usize>) {
        self.source.hint()
    }

    open(crate) spec fn emitted(&self, controls: ControlState) -> Option<Sample> {
        match self.source.emitted(controls) {
            Some(sample) => Some(scaled(sample, self.volume@) as Sample),
            None => None,
        }
    }

    open(crate) spec fn advanced(&self, controls: ControlState) -> Self {
        AmplifiedSource { source: self.source.advanced(controls), ..*self }
    }

    open(crate) spec fn signalled(&self, controls: ControlState) -> ControlState {
        self.source.signalled(controls)
    }

    /// What the wrapped source yields, scaled to the volume.
    #[inline]
    fn next(&mut self, controls: &mut Controls) -> (sample: Option<Sample>) {
        match self.source.next(controls) {
            Some(sample) => Some(attenuate(sample, self.volume)),
            None => None,
        }
    }

    #[inline]
    fn size_hint(&self) -> (hint: (usize, Option<usize>)) {
        self.source.size_hint()
    }

    #[inline]
    fn current_frame_len(&self) -> (len: Option<usize>) {
        self.source.current_frame_len()
    }

    #[inline]
    fn channels(&self) -> (count: u16) {
        self.source.channels()
    }

    #[inline]
    fn sample_rate(&self) -> (rate: u32) {
        self.source.sample_rate()
    }

    #[inline]
    fn total_duration(&self) -> (length: Option<TrackLength>) {
        self.source.total_duration()
    }
}

} // verus!
