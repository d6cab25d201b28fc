//! Transport intent and published status.

use vstd::prelude::*;
use crate::span::TimeSpan;
use crate::volume::{clamp_volume, Volume, FULL_VOLUME};

verus! {

/// What a `Controls` holds, as a plain value.
pub struct ControlState {
    /// Playback is stopped: by the caller, or because the window ran out.
    pub stopped: bool,
    /// Playback is held where it is.
    pub paused: bool,
    /// The window that is to be played.
    pub window: TimeSpan,
    /// Volume in percent.
    pub volume: u8,
    /// The position in seconds that the render side published last.
    pub progress: u32,
}

impl ControlState {
    /// The volume lies within its range.
    pub open spec fn valid(self) -> bool {
        self.volume <= FULL_VOLUME
    }

    /// The state once `span` is asked for: the window is `span`, and
    /// playback is neither stopped nor paused.
    pub open spec fn played(self, span: TimeSpan) -> Self {
        ControlState { window: span, stopped: false, paused: false, ..self }
    }

    /// The state once a stop is asked for.
    pub open spec fn halted(self) -> Self {
        ControlState { stopped: true, ..self }
    }

    /// The state once a pause is asked for.
    pub open spec fn held(self) -> Self {
        ControlState { paused: true, ..self }
    }

    /// The state once a volume of `percent` is asked for.
    pub open spec fn at_volume(self, percent: int) -> Self {
        ControlState { volume: clamp_volume(percent), ..self }
    }

    /// The state of a fresh session: nothing stopped or paused, an empty
    /// window, full volume.
    pub open spec fn initial() -> Self {
        ControlState {
            stopped: false,
            paused: false,
            window: TimeSpan { start: 0, duration: 0 },
            volume: FULL_VOLUME,
            progress: 0,
        }
    }
}

/// The transport's shared state: what the control side asks for, and what
/// the render side reports back.
#[derive(Copy, Clone, Debug)]
pub struct Controls {
    stopped: bool,
    paused: bool,
    time: TimeSpan,
    volume: Volume,
    progress: u32,
}

impl View for Controls {
    type V = ControlState;

    closed spec fn view(&self) -> ControlState {
        ControlState {
            stopped: self.stopped,
            paused: self.paused,
            window: self.time,
            volume: self.volume@,
            progress: self.progress,
        }
    }
}

impl Controls {
    /// The controls of a fresh session.
    #[inline]
    pub fn new() -> (controls: Self)
        ensures
            controls@ == ControlState::initial(),
    {
        Controls {
            stopped: false,
            paused: false,
            time: TimeSpan::new(0, 0),
            volume: Volume::full(),
            progress: 0,
        }
    }

    #[inline]
    pub fn stopped(&self) -> (value: bool)
        ensures
            value == self@.stopped,
    {
        self.stopped
    }

    #[inline]
    pub fn set_stopped(&mut self, value: bool)
        ensures
            final(self)@ == (ControlState { stopped: value, ..old(self)@ }),
    {
        self.stopped = value;
    }

    #[inline]
    pub fn paused(&self) -> (value: bool)
        ensures
            value == self@.paused,
    {
        self.paused
    }

    #[inline]
    pub fn set_paused(&mut self, value: bool)
        ensures
            final(self)@ == (ControlState { paused: value, ..old(self)@ }),
    {
        self.paused = value;
    }

    /// The volume in percent.
    #[inline]
    pub fn volume(&self) -> (value: u8)
        ensures
            value == self@.volume,
            value <= FULL_VOLUME,
    {
        self.volume.percent()
    }

    /// The volume.
    #[inline]
    pub fn level(&self) -> (value: Volume)
        ensures
            value@ == self@.volume,
    {
        self.volume
    }

    /// Stores `percent`, held to `0..=100`.
    #[inline]
    pub fn set_volume(&mut self, percent: i32)
        ensures
            final(self)@ == old(self)@.at_volume(percent as int),
    {
        self.volume = Volume::clamped(percent);
    }

    #[inline]
    pub fn time(&self) -> (value: TimeSpan)
        ensures
            value == self@.window,
    {
        self.time
    }

    #[inline]
    pub fn set_time(&mut self, value: TimeSpan)
        ensures
            final(self)@ == (ControlState { window: value, ..old(self)@ }),
    {
        self.time = value;
    }

    #[inline]
    pub fn progress(&self) -> (value: u32)
        ensures
            value == self@.progress,
    {
        self.progress
    }

    #[inline]
    pub fn set_progress(&mut self, value: u32)
        ensures
            final(self)@ == (ControlState { progress: value, ..old(self)@ }),
    {
        self.progress = value;
    }
}

} // verus!
