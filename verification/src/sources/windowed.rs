//! A window over a track.

use vstd::prelude::*;
use crate::controls::{Controls, ControlState};
use crate::sample::Sample;
use crate::source::{
    clamp_index, stride, window_end, window_start, DirectAccess, FloatWindow, Resettable, Source,
    TrackLength,
};
use crate::span::TimeSpan;

verus! {

/// Plays the samples of a track from a start index up to an end index.
#[derive(Debug)]
pub struct FloatWindowSource<T: DirectAccess> {
    pub(crate) start: usize,
    pub(crate) end: usize,
    pub(crate) source: T,
}

/// `index` as a sample index, held at the largest one there is.
fn clamped(index: u128) -> (clamp: usize)
    ensures
        clamp == clamp_index(index as int),
{
    if index > usize::MAX as u128 {
        usize::MAX
    } else {
        index as usize
    }
}

impl<T: DirectAccess> FloatWindowSource<T> {
    /// The track that the window lies over.
    pub open(crate) spec fn wrapped(&self) -> T {
        self.source
    }

    /// An empty window at the start of `source`.
    #[inline]
    pub fn new(source: T) -> (window: Self)
        ensures
            window.wrapped() == source,
            window.origin() == 0,
            window.limit() == 0,
    {
        FloatWindowSource { source, start: 0, end: 0 }
    }

    /// The track that the window lies over.
    #[inline]
    pub fn inner(&self) -> (source: &T)
        ensures
            *source == self.wrapped(),
    {
        &self.source
    }

    /// Samples that one second takes, all channels together.
    #[inline]
    fn sample_rate_for_all_channels(&self) -> (samples: u64)
        ensures
            samples == stride(self.channel_count(), self.rate()),
            0 < samples <= 0xFFFF * 0xFFFF_FFFF,
    {
        let channels: u64 = self.source.channels() as u64;
        let rate: u64 = self.source.sample_rate() as u64;
        assert(0 < channels * rate <= 0xFFFF * 0xFFFF_FFFF) by (nonlinear_arith)
            requires
                0 < channels <= 0xFFFF,
                0 < rate <= 0xFFFF_FFFF,
        ;
        channels * rate
    }
}

impl<T: DirectAccess> Resettable for FloatWindowSource<T> {
    open(crate) spec fn rewound(&self) -> Self {
        FloatWindowSource { source: self.source.moved(self.start), ..*self }
    }

    /// Puts the cursor at the start of the window.
    #[inline]
    fn reset(&mut self) {
        self.source.set_current(self.start);
    }
}

impl<T: DirectAccess> FloatWindow for FloatWindowSource<T> {
    open(crate) spec fn position(&self) -> usize {
        self.source.position()
    }

    open(crate) spec fn origin(&self) -> usize {
        self.start
    }

    open(crate) spec fn limit(&self) -> usize {
        self.end
    }

    open(crate) spec fn windowed(&self, time: TimeSpan) -> Self {
        let start = window_start(stride(self.source.channel_count(), self.source.rate()), time);
        let end = window_end(stride(self.source.channel_count(), self.source.rate()), time);
        FloatWindowSource {
            start,
            end,
            source: if self.source.position() < start || self.source.position() > end {
                self.source.moved(start)
            } else {
                self.source
            },
        }
    }

    #[inline]
    fn play(&mut self, time: TimeSpan) {
        let multiplier: u128 = self.sample_rate_for_all_channels() as u128;
        assert(multiplier * time.start <= 0xFFFF_FFFF_FFFF * 0xFFFF_FFFF
            && multiplier * time.duration <= 0xFFFF_FFFF_FFFF * 0xFFFF_FFFF
            && multiplier * (time.start + time.duration) == multiplier * time.start + multiplier
            * time.duration) by (nonlinear_arith)
            requires
                0 < multiplier <= 0xFFFF * 0xFFFF_FFFF,
                0 <= time.start <= 0xFFFF_FFFF,
                0 <= time.duration <= 0xFFFF_FFFF,
        ;
        let first: u128 = multiplier * (time.start as u128);
        let last: u128 = first + multiplier * (time.duration as u128);
        self.start = clamped(first);
        self.end = clamped(last);
        let current = self.source.current();
        if current < self.start || current > self.end {
            self.source.set_current(self.start);
        }
    }

    #[inline]
    fn cursor(&self) -> (index: usize) {
        self.source.current()
    }

    #[inline]
    fn end(&self) -> (index: usize) {
        self.end
    }
}

impl<T: DirectAccess> Source for FloatWindowSource<T> {
    open(crate) spec fn channel_count(&self) -> u16 {
        self.source.channel_count()
    }

    open(crate) spec fn rate(&self) -> u32 {
        self.source.rate()
    }

    open(crate) spec fn frame_len(&self) -> Option<usize> {
        self.source.frame_len()
    }

    open(crate) spec fn length(&self) -> Option<TrackLength> {
        self.source.length()
    }

    open(crate) spec fn hint(&self) -> (usize, Option<usize>) {
        self.source.hint()
    }

    open(crate) spec fn emitted(&self, controls: ControlState) -> Option<Sample> {
        if self.source.position() < self.end {
            self.source.emitted(controls)
        } else {
            None
        }
    }

    open(crate) spec fn advanced(&self, controls: ControlState) -> Self {
        if self.source.position() < self.end {
            FloatWindowSource { source: self.source.advanced(controls), ..*self }
        } else {
            *self
        }
    }

    open(crate) spec fn signalled(&self, controls: ControlState) -> ControlState {
        if self.source.position() < self.end {
            self.source.signalled(controls)
        } else {
            controls
        }
    }

    /// What the track yields while the cursor lies before the end of the
    /// window; `None`, and nothing moves, once it has reached it.
    #[inline]
    fn next(&mut self, controls: &mut Controls) -> (sample: Option<Sample>) {
        if self.source.current() < self.end {
            self.source.next(controls)
        } else {
            None
        }
    }

    #[inline]
    fn size_hint(&self) -> (hint: (usize, Option<usize>)) {
        self.source.size_hint()
    }

    #[inline]
    fn current_frame_len(&self) -> (len: Option<usize>) {
        self.source.current_frame_len()
    }

    #[inline]
    fn channels(&self) -> (count: u16) {
        self.source.channels()
    }

    #[inline]
    fn sample_rate(&self) -> (rate: u32) {
        self.source.sample_rate()
    }

    #[inline]
    fn total_duration(&self) -> (length: Option<TrackLength>) {
        self.source.total_duration()
    }
}

} // verus!
