//! The transport: what a caller asks of the engine, and what the render
//! path does with it.

use vstd::prelude::*;
use crate::controls::{Controls, ControlState};
use crate::model::{publish, pull, sync, Pulled};
use crate::pipeline::Pipeline;
use crate::sample::{Sample, SILENCE};
use crate::source::{FloatWindow, Inspectable, Source};
use crate::span::TimeSpan;

verus! {

/// Milliseconds of sound between two synchronisations.
pub const SYNC_PERIOD_MS: u64 = 5;

/// Milliseconds of sound between two publications of the position.
pub const PUBLISH_PERIOD_MS: u64 = 995;

/// The transport of one session. It owns the controls: the caller's side
/// writes its intents into them, the render side reads them and writes the
/// position back.
#[derive(Debug)]
pub struct Song {
    controls: Controls,
}

impl View for Song {
    type V = ControlState;

    closed spec fn view(&self) -> ControlState {
        self.controls@
    }
}

impl Song {
    /// A transport with nothing loaded, stopped or paused, at full volume.
    pub fn new() -> (song: Self)
        ensures
            song@ == ControlState::initial(),
    {
        Song { controls: Controls::new() }
    }

    /// Asks for the window `time` to be played: from where the cursor stands
    /// if that is within the window, else from its start.
    #[inline]
    pub fn play(&mut self, time: TimeSpan)
        ensures
            final(self)@ == old(self)@.played(time),
    {
        self.controls.set_time(time);
        self.controls.set_stopped(false);
        self.controls.set_paused(false);
    }

    /// Asks for playback to stop.
    #[inline]
    pub fn stop(&mut self)
        ensures
            final(self)@ == old(self)@.halted(),
    {
        self.controls.set_stopped(true);
    }

    /// Asks for playback to be held where it is.
    #[inline]
    pub fn pause(&mut self)
        ensures
            final(self)@ == old(self)@.held(),
    {
        self.controls.set_paused(true);
    }

    /// Asks for a volume of `percent`, held to `0..=100`.
    #[inline]
    pub fn volume(&mut self, percent: i32)
        ensures
            final(self)@ == old(self)@.at_volume(percent as int),
    {
        self.controls.set_volume(percent);
    }

    /// The position in seconds that the render path published last.
    #[inline]
    pub fn progress(&self) -> (seconds: u32)
        ensures
            seconds == self@.progress,
    {
        self.controls.progress()
    }

    /// The controls.
    #[inline]
    pub fn controls(&self) -> (controls: &Controls)
        ensures
            controls@ == self@,
    {
        &self.controls
    }

    /// Pulls the next sample to be heard out of `pipeline`.
    pub fn render(&mut self, pipeline: &mut Pipeline) -> (sample: Sample)
        ensures
            pull(old(pipeline)@, old(self)@) == (Pulled {
                pipeline: final(pipeline)@,
                controls: final(self)@,
                sample,
            }),
            final(pipeline).length() == old(pipeline).length(),
    {
        match pipeline.next(&mut self.controls) {
            Some(sample) => sample,
            None => SILENCE,
        }
    }

    /// Hands the intents to `pipeline`: stop and pause, the window, and the
    /// volume. Only here does what the caller asked for reach the samples.
    pub fn sync(&self, pipeline: &mut Pipeline)
        ensures
            final(pipeline)@ == sync(old(pipeline)@, self@),
            final(pipeline).length() == old(pipeline).length(),
    {
        pipeline.source.source.stop(self.controls.stopped());
        pipeline.source.pause(self.controls.paused());
        pipeline.source.source.source.source.play(self.controls.time());
        pipeline.set_volume(self.controls.level());
    }

    /// Writes the position of `pipeline`, in whole seconds, into the
    /// controls.
    pub fn publish(&mut self, pipeline: &Pipeline)
        ensures
            final(self)@ == publish(pipeline@, old(self)@),
    {
        let seconds: u64 = pipeline.source.source.source.source.current_sec() as u64;
        self.controls.set_progress((seconds % 0x1_0000_0000) as u32);
    }
}

} // verus!
