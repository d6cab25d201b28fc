//! The stage that holds playback at the start of the window.

use vstd::prelude::*;
use crate::controls::{Controls, ControlState};
use crate::sample::{Sample, SILENCE};
use crate::source::{Resettable, Source, TrackLength};

verus! {

/// While stopped, yields silence and keeps the wrapped source rewound.
#[derive(Debug)]
pub struct StoppableSource<T: Resettable> {
    pub(crate) source: T,
    pub(crate) stopped: bool,
}

impl<T: Resettable> StoppableSource<T> {
    /// The source that the stage reads.
    pub open(crate) spec fn wrapped(&self) -> T {
        self.source
    }

    /// Whether the stage is stopped.
    pub open(crate) spec fn is_stopped(&self) -> bool {
        self.stopped
    }

    #[inline]
    pub fn new(source: T) -> (stage: Self)
        ensures
            stage.wrapped() == source,
            !stage.is_stopped(),
    {
        StoppableSource { source, stopped: false }
    }

    #[inline]
    pub fn stop(&mut self, stop: bool)
        ensures
            final(self).wrapped() == old(self).wrapped(),
            final(self).is_stopped() == stop,
    {
        self.stopped = stop;
    }

    /// The source that the stage reads.
    #[inline]
    pub fn inner(&self) -> (source: &T)
        ensures
            *source == self.wrapped(),
    {
        &self.source
    }
}

impl<T: Resettable> Source for StoppableSource<T> {
    open(crate) spec fn channel_count(&self) -> u16 {
        self.source.channel_count()
    }

    open(crate) spec fn rate(&self) -> u32 {
        self.source.rate()
    }

    open(crate) spec fn frame_len(&self) -> Option<usize> {
        self.source.frame_len()
    }

    open(crate) spec fn length(&self) -> Option<TrackLength> {
        self.source.length()
    }

    open(crate) spec fn hint(&self) -> (usize, Option<usize>) {
        (0, None)
    }

    open(crate) spec fn emitted(&self, controls: ControlState) -> Option<Sample> {
        if self.stopped {
            Some(SILENCE)
        } else {
            self.source.emitted(controls)
        }
    }

    open(crate) spec fn advanced(&self, controls: ControlState) -> Self {
        if self.stopped {
            StoppableSource { source: self.source.rewound(), ..*self }
        } else {
            StoppableSource { source: self.source.advanced(controls), ..*self }
        }
    }

    open(crate) spec fn signalled(&self, controls: ControlState) -> ControlState {
        if self.stopped {
            controls
        } else {
            self.source.signalled(controls)
        }
    }

    /// While stopped: silence, and the wrapped source is rewound. Otherwise
    /// what the wrapped source yields.
    fn next(&mut self, controls: &mut Controls) -> (sample: Option<Sample>) {
        if self.stopped {
            self.source.reset();
            Some(SILENCE)
        } else {
            self.source.next(controls)
        }
    }

    /// No bound is known.
    #[inline]
    fn size_hint(&self) -> (hint: (usize, Option<usize>)) {
        (0, None)
    }

    #[inline]
    fn current_frame_len(&self) -> (len: Option<usize>) {
        self.source.current_frame_len()
    }

    #[inline]
    fn channels(&self) -> (count: u16) {
        self.source.channels()
    }

    #[inline]
    fn sample_rate(&self) -> (rate: u32) {
        self.source.sample_rate()
    }

    #[inline]
    fn total_duration(&self) -> (length: Option<TrackLength>) {
        self.source.total_duration()
    }
}

} // verus!
