//! The stages put together.

use vstd::prelude::*;
use crate::controls::ControlState;
use crate::model::{pull, PipelineState};
use crate::sample::Sample;
use crate::source::{track_nanos, Source, TrackLength};
use crate::sources::{
    AmplifiedSource, BaseSource, FloatWindowSource, PausableSource, SmartSource, StoppableSource,
};

verus! {

/// The render path from the decoded track to the samples that are heard: the
/// track, the window over it, the stage that signals its end, the stop and
/// pause stages, and the volume.
pub type Pipeline = AmplifiedSource<
    PausableSource<StoppableSource<SmartSource<FloatWindowSource<BaseSource>>>>,
>;

impl View for AmplifiedSource<
    PausableSource<StoppableSource<SmartSource<FloatWindowSource<BaseSource>>>>,
> {
    type V = PipelineState;

    open(crate) spec fn view(&self) -> PipelineState {
        let pausable = self.source;
        let stoppable = pausable.source;
        let window = stoppable.source.source;
        let base = window.source;
        PipelineState {
            samples: base.source@,
            channels: base.channels,
            rate: base.sample_rate,
            cursor: base.current,
            start: window.start,
            end: window.end,
            stopped: stoppable.stopped,
            paused: pausable.paused,
            volume: self.volume@,
        }
    }
}

/// Why a decoded track cannot be played.
#[derive(Copy, Clone, Debug, PartialEq, Eq, Structural)]
pub enum Unplayable {
    /// The track has no channel.
    NoChannels,
    /// The track has a sample rate of zero.
    NoSampleRate,
}

/// Puts the pipeline together over a decoded track.
///
/// The track is refused if it has no channel, else if its rate is zero.
pub fn assemble(channels: u16, sample_rate: u32, samples: Vec<Sample>) -> (assembled: Result<
    Pipeline,
    Unplayable,
>)
    ensures
        match assembled {
            Ok(pipeline) => {
                &&& channels > 0
                &&& sample_rate > 0
                &&& pipeline@ == PipelineState::fresh(samples@, channels, sample_rate)
                &&& pipeline@.valid()
                &&& pipeline@.stride() == channels * sample_rate
                &&& pipeline.length() == Some(
                    TrackLength::of_nanos(track_nanos(samples@.len(), sample_rate, channels)),
                )
            },
            Err(reason) => match reason {
                Unplayable::NoChannels => channels == 0,
                Unplayable::NoSampleRate => channels > 0 && sample_rate == 0,
            },
        },
{
    if channels == 0 {
        return Err(Unplayable::NoChannels);
    }
    if sample_rate == 0 {
        return Err(Unplayable::NoSampleRate);
    }
    let base = BaseSource::new(channels, sample_rate, samples);
    let window = FloatWindowSource::new(base);
    let smart = SmartSource::new(window);
    let stoppable = StoppableSource::new(smart);
    let pausable = PausableSource::new(stoppable);
    Ok(AmplifiedSource::new(pausable))
}

/// The stages together do what `pull` says: a pull through them yields what
/// `pull` says of their state, and leaves pipeline and controls as it says.
pub proof fn lemma_stages_pull(pipeline: Pipeline, controls: ControlState)
    ensures
        pipeline.emitted(controls) == Some(pull(pipeline@, controls).sample),
        pipeline.advanced(controls)@ == pull(pipeline@, controls).pipeline,
        pipeline.signalled(controls) == pull(pipeline@, controls).controls,
        pipeline.advanced(controls).length() == pipeline.length(),
        pipeline.advanced(controls).channel_count() == pipeline.channel_count(),
        pipeline.advanced(controls).rate() == pipeline.rate(),
{
}

} // verus!
