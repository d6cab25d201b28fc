//! The stage that turns the end of a window into silence and a signal.

use vstd::prelude::*;
use crate::controls::{Controls, ControlState};
use crate::sample::{Sample, SILENCE};
use crate::source::{FloatWindow, Resettable, Source, TrackLength};

verus! {

/// A window that never ends: once it is exhausted it yields silence and
/// marks the controls as stopped.
#[derive(Debug)]
pub struct SmartSource<T: FloatWindow> {
    pub(crate) source: T,
}

impl<T: FloatWindow> SmartSource<T> {
    /// The window that the stage reads.
    pub open(crate) spec fn wrapped(&self) -> T {
        self.source
    }

    #[inline]
    pub fn new(source: T) -> (smart: Self)
        ensures
            smart.wrapped() == source,
    {
        SmartSource { source }
    }

    /// The window that the stage reads.
    #[inline]
    pub fn inner(&self) -> (source: &T)
        ensures
            *source == self.wrapped(),
    {
        &self.source
    }
}

impl<T: FloatWindow> Resettable for SmartSource<T> {
    open(crate) spec fn rewound(&self) -> Self {
        SmartSource { source: self.source.rewound() }
    }

    #[inline]
    fn reset(&mut self) {
        self.source.reset();
    }
}

impl<T: FloatWindow> Source for SmartSource<T> {
    open(crate) spec fn channel_count(&self) -> u16 {
        self.source.channel_count()
    }

    open(crate) spec fn rate(&self) -> u32 {
        self.source.rate()
    }

    open(crate) spec fn frame_len(&self) -> Option<usize> {
        self.source.frame_len()
    }

    open(crate) spec fn length(&self) -> Option<TrackLength> {
        self.source.length()
    }

    open(crate) spec fn hint(&self) -> (usize, Option<usize>) {
        self.source.hint()
    }

    open(crate) spec fn emitted(&self, controls: ControlState) -> Option<Sample> {
        match self.source.emitted(controls) {
            Some(sample) => Some(sample),
            None => Some(SILENCE),
        }
    }

    open(crate) spec fn advanced(&self, controls: ControlState) -> Self {
        SmartSource { source: self.source.advanced(controls) }
    }

    open(crate) spec fn signalled(&self, controls: ControlState) -> ControlState {
        match self.source.emitted(controls) {
            Some(_) => self.source.signalled(controls),
            None => ControlState { stopped: true, ..self.source.signalled(controls) },
        }
    }

    /// The window's sample while it has one. Once it has none, silence, and
    /// the controls are marked as stopped.
    #[inline]
    fn next(&mut self, controls: &mut Controls) -> (sample: Option<Sample>) {
        match self.source.next(controls) {
            Some(sample) => Some(sample),
            None => {
                controls.set_stopped(true);
                Some(SILENCE)
            },
        }
    }

    #[inline]
    fn size_hint(&self) -> (hint: (usize, Option<usize>)) {
        self.source.size_hint()
    }

    #[inline]
    fn current_frame_len(&self) -> (len: Option<usize>) {
        self.source.current_frame_len()
    }

    #[inline]
    fn channels(&self) -> (count: u16) {
        self.source.channels()
    }

    #[inline]
    fn sample_rate(&self) -> (rate: u32) {
        self.source.sample_rate()
    }

    #[inline]
    fn total_duration(&self) -> (length: Option<TrackLength>) {
        self.source.total_duration()
    }
}

} // verus!
