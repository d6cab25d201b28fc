//! The render path as mathematics: what a pull, a synchronisation and a
//! publication do to the state of the pipeline and of the controls.

use vstd::prelude::*;
use crate::controls::ControlState;
use crate::sample::{scaled, Sample, SILENCE};
use crate::source::{seek, stride, window_end, window_start};
use crate::span::TimeSpan;
use crate::volume::FULL_VOLUME;

verus! {

/// What the pipeline holds, as a plain value.
pub struct PipelineState {
    /// The decoded track, channels interleaved.
    pub samples: Seq<Sample>,
    pub channels: u16,
    /// Frames a second.
    pub rate: u32,
    /// Index of the sample that the next pull reads.
    pub cursor: usize,
    /// Index at which the window begins.
    pub start: usize,
    /// Index before which the window ends.
    pub end: usize,
    /// The stop stage's copy of the stop intent.
    pub stopped: bool,
    /// The pause stage's copy of the pause intent.
    pub paused: bool,
    /// The amplitude stage's copy of the volume, in percent.
    pub volume: u8,
}

impl PipelineState {
    /// Channels and rate are positive, and the volume lies within its range.
    pub open spec fn valid(self) -> bool {
        &&& self.channels > 0
        &&& self.rate > 0
        &&& self.volume <= FULL_VOLUME
    }

    /// The pipeline as it is assembled: at the start of the track, with an
    /// empty window, neither stopped nor paused, at full volume.
    pub open spec fn fresh(samples: Seq<Sample>, channels: u16, rate: u32) -> Self {
        PipelineState {
            samples,
            channels,
            rate,
            cursor: 0,
            start: 0,
            end: 0,
            stopped: false,
            paused: false,
            volume: FULL_VOLUME,
        }
    }

    /// Samples that one second takes.
    pub open spec fn stride(self) -> int {
        stride(self.channels, self.rate)
    }

    /// The window has nothing left to play: the cursor has reached its end,
    /// or the end of the track.
    pub open spec fn exhausted(self) -> bool {
        self.cursor >= self.end || self.cursor >= self.samples.len()
    }

    /// Whole seconds of the track that lie before the cursor.
    pub open spec fn seconds(self) -> int {
        (self.cursor as int) / (self.channels as int) / (self.rate as int)
    }

    /// The window is that of `span`.
    pub open spec fn frames(self, span: TimeSpan) -> bool {
        &&& self.start == window_start(self.stride(), span)
        &&& self.end == window_end(self.stride(), span)
    }
}

/// What one pull leaves behind, and what it yields.
pub struct Pulled {
    pub pipeline: PipelineState,
    pub controls: ControlState,
    pub sample: Sample,
}

/// One pull through the pipeline.
///
/// Paused: silence, and nothing moves. Else stopped: silence, and the cursor
/// goes back to the start of the window. Else exhausted: silence, and the
/// controls are marked as stopped. Else the sample at the cursor, scaled to
/// the volume, and the cursor moves on by one.
pub open spec fn pull(pipeline: PipelineState, controls: ControlState) -> Pulled {
    if pipeline.paused {
        Pulled { pipeline, controls, sample: SILENCE }
    } else if pipeline.stopped {
        Pulled {
            pipeline: PipelineState { cursor: pipeline.start, ..pipeline },
            controls,
            sample: SILENCE,
        }
    } else if pipeline.exhausted() {
        Pulled { pipeline, controls: ControlState { stopped: true, ..controls }, sample: SILENCE }
    } else {
        Pulled {
            pipeline: PipelineState { cursor: (pipeline.cursor + 1) as usize, ..pipeline },
            controls,
            sample: scaled(pipeline.samples[pipeline.cursor as int], pipeline.volume) as Sample,
        }
    }
}

/// The pipeline once it has taken over what the controls ask for: the stop
/// and pause intents, the volume, and the window, in which the cursor stays
/// if it lies within it or at its end and goes to its start otherwise.
pub open spec fn sync(pipeline: PipelineState, controls: ControlState) -> PipelineState {
    let start = window_start(pipeline.stride(), controls.window);
    let end = window_end(pipeline.stride(), controls.window);
    PipelineState {
        stopped: controls.stopped,
        paused: controls.paused,
        volume: controls.volume,
        start,
        end,
        cursor: seek(pipeline.cursor, start, end),
        ..pipeline
    }
}

/// The position that a publication writes: the cursor in whole seconds, in
/// the 32 bits that the controls hold.
pub open spec fn published(pipeline: PipelineState) -> u32 {
    (pipeline.seconds() % 0x1_0000_0000) as u32
}

/// The controls once the pipeline has published its position.
pub open spec fn publish(pipeline: PipelineState, controls: ControlState) -> ControlState {
    ControlState { progress: published(pipeline), ..controls }
}

/// The two halves of the engine side by side.
pub struct Engine {
    pub controls: ControlState,
    pub pipeline: PipelineState,
}

/// What can happen to the engine: the caller states an intent, or the
/// render path takes a turn.
pub enum Event {
    /// The caller asks for a span to be played.
    Play(TimeSpan),
    /// The caller asks for a stop.
    Stop,
    /// The caller asks for a pause.
    Pause,
    /// The caller asks for a volume in percent.
    Volume(i32),
    /// The render path pulls one sample.
    Pull,
    /// The render path takes the intents over from the controls.
    Sync,
    /// The render path publishes its position to the controls.
    Publish,
}

impl Event {
    /// The event leaves the window that is asked for as it is.
    pub open spec fn keeps_window(self) -> bool {
        !(self is Play)
    }

    /// The event neither moves the window nor asks for a stop.
    pub open spec fn keeps_going(self) -> bool {
        !(self is Play) && !(self is Stop)
    }

    /// The event neither moves the window nor asks for a pause.
    pub open spec fn keeps_stopped(self) -> bool {
        !(self is Play) && !(self is Pause)
    }

    /// The event is no synchronisation: it leaves the pipeline's copies of
    /// the intents as they are.
    pub open spec fn keeps_copies(self) -> bool {
        !(self is Sync)
    }

    /// The event does not ask for a volume above zero.
    pub open spec fn keeps_mute(self) -> bool {
        self matches Event::Volume(percent) ==> percent <= 0
    }
}

/// Every event of `events` meets `allowed`.
pub open spec fn only(events: Seq<Event>, allowed: spec_fn(Event) -> bool) -> bool {
    forall|i: int| 0 <= i < events.len() ==> allowed(#[trigger] events[i])
}

/// The engine after one event.
pub open spec fn step(engine: Engine, event: Event) -> Engine {
    match event {
        Event::Play(span) => Engine { controls: engine.controls.played(span), ..engine },
        Event::Stop => Engine { controls: engine.controls.halted(), ..engine },
        Event::Pause => Engine { controls: engine.controls.held(), ..engine },
        Event::Volume(percent) => Engine {
            controls: engine.controls.at_volume(percent as int),
            ..engine
        },
        Event::Pull => {
            let pulled = pull(engine.pipeline, engine.controls);
            Engine { controls: pulled.controls, pipeline: pulled.pipeline }
        },
        Event::Sync => Engine { pipeline: sync(engine.pipeline, engine.controls), ..engine },
        Event::Publish => Engine { controls: publish(engine.pipeline, engine.controls), ..engine },
    }
}

/// The engine after the events of `events`, first to last.
pub open spec fn run(engine: Engine, events: Seq<Event>) -> Engine
    decreases events.len(),
{
    if events.len() == 0 {
        engine
    } else {
        step(run(engine, events.drop_last()), events.last())
    }
}

/// The samples that the pulls among `events` yield, first to last.
pub open spec fn heard(engine: Engine, events: Seq<Event>) -> Seq<Sample>
    decreases events.len(),
{
    if events.len() == 0 {
        Seq::empty()
    } else {
        let before = run(engine, events.drop_last());
        match events.last() {
            Event::Pull => heard(engine, events.drop_last()).push(
                pull(before.pipeline, before.controls).sample,
            ),
            _ => heard(engine, events.drop_last()),
        }
    }
}

impl Engine {
    /// Both halves are valid.
    pub open spec fn valid(self) -> bool {
        self.controls.valid() && self.pipeline.valid()
    }

    /// The pipeline has the window that the controls ask for, and its cursor
    /// lies within it or at its end.
    pub open spec fn settled(self) -> bool {
        &&& self.pipeline.frames(self.controls.window)
        &&& self.pipeline.start <= self.pipeline.cursor <= self.pipeline.end
    }

    /// `span` is being played: the pipeline has its window and its cursor
    /// lies within it, neither side is stopped, and the published position
    /// lies between the start of `span` and the cursor.
    pub open spec fn tracking(self, span: TimeSpan) -> bool {
        &&& self.controls.window == span
        &&& self.settled()
        &&& !self.controls.stopped
        &&& !self.pipeline.stopped
        &&& span.start <= self.controls.progress <= self.pipeline.seconds()
    }

    /// Playback rests at the start of the window of `span`: both sides are
    /// stopped, neither is paused, and the cursor is at the start.
    pub open spec fn resting(self, span: TimeSpan) -> bool {
        &&& self.controls.window == span
        &&& self.pipeline.frames(span)
        &&& self.controls.stopped
        &&& self.pipeline.stopped
        &&& !self.controls.paused
        &&& !self.pipeline.paused
        &&& self.pipeline.cursor == self.pipeline.start
    }

    /// Playback is held: both sides are paused, and the pipeline is settled.
    pub open spec fn holding(self) -> bool {
        &&& self.controls.paused
        &&& self.pipeline.paused
        &&& self.settled()
    }
}

/// The window of `span` lies within the indices that there are, and its end
/// within the seconds that the controls can hold.
pub open spec fn fits(pipeline: PipelineState, span: TimeSpan) -> bool {
    &&& pipeline.stride() * span.end() <= usize::MAX
    &&& span.end() <= u32::MAX
}

/// Every sample of `samples` is silence.
pub open spec fn silent(samples: Seq<Sample>) -> bool {
    forall|i: int| 0 <= i < samples.len() ==> samples[i] == SILENCE
}

/// `count` pulls in a row.
pub open spec fn pulls(count: nat) -> Seq<Event> {
    Seq::new(count, |i: int| Event::Pull)
}

/// No event changes what the track holds or makes a valid engine invalid.
/// No event but a request for a span moves the window that is asked for or
/// takes a stop back.
pub proof fn lemma_step_keeps(engine: Engine, event: Event)
    ensures
        step(engine, event).pipeline.samples == engine.pipeline.samples,
        step(engine, event).pipeline.channels == engine.pipeline.channels,
        step(engine, event).pipeline.rate == engine.pipeline.rate,
        engine.valid() ==> step(engine, event).valid(),
        event.keeps_window() ==> step(engine, event).controls.window == engine.controls.window,
        event.keeps_window() && engine.controls.stopped ==> step(engine, event).controls.stopped,
{
}

/// The same over a run of events.
pub proof fn lemma_run_keeps(engine: Engine, events: Seq<Event>)
    ensures
        run(engine, events).pipeline.samples == engine.pipeline.samples,
        run(engine, events).pipeline.channels == engine.pipeline.channels,
        run(engine, events).pipeline.rate == engine.pipeline.rate,
        engine.valid() ==> run(engine, events).valid(),
        only(events, |e: Event| e.keeps_window()) ==> run(engine, events).controls.window
            == engine.controls.window,
        only(events, |e: Event| e.keeps_window()) && engine.controls.stopped ==> run(
            engine,
            events,
        ).controls.stopped,
    decreases events.len(),
{
    if events.len() > 0 {
        lemma_run_keeps(engine, events.drop_last());
        lemma_step_keeps(run(engine, events.drop_last()), events.last());
        if only(events, |e: Event| e.keeps_window()) {
            lemma_only_shrinks(events, |e: Event| e.keeps_window());
        }
    }
}

/// What holds of every event of a run holds of its last event and of every
/// event before it.
pub proof fn lemma_only_shrinks(events: Seq<Event>, allowed: spec_fn(Event) -> bool)
    requires
        events.len() > 0,
        only(events, allowed),
    ensures
        only(events.drop_last(), allowed),
        allowed(events.last()),
{
    assert forall|i: int| 0 <= i < events.drop_last().len() implies allowed(
        #[trigger] events.drop_last()[i],
    ) by {
        assert(events.drop_last()[i] == events[i]);
    }
}

/// A run of two events, one step at a time.
pub proof fn lemma_run_two(engine: Engine, first: Event, second: Event)
    ensures
        run(engine, seq![first, second]) == step(step(engine, first), second),
{
    let two = seq![first, second];
    let one = seq![first];
    assert(two.drop_last() == one);
    assert(one.drop_last() == Seq::<Event>::empty());
    assert(run(engine, Seq::<Event>::empty()) == engine);
    assert(run(engine, one) == step(engine, first));
}

/// A run of three events, one step at a time.
pub proof fn lemma_run_three(engine: Engine, first: Event, second: Event, third: Event)
    ensures
        run(engine, seq![first, second, third]) == step(
            step(step(engine, first), second),
            third,
        ),
{
    let three = seq![first, second, third];
    let two = seq![first, second];
    let one = seq![first];
    assert(three.drop_last() == two);
    assert(two.drop_last() == one);
    assert(one.drop_last() == Seq::<Event>::empty());
    assert(run(engine, Seq::<Event>::empty()) == engine);
    assert(run(engine, one) == step(engine, first));
    assert(run(engine, two) == step(run(engine, one), second));
}

/// A run of two runs, one after the other.
pub proof fn lemma_run_joins(engine: Engine, first: Seq<Event>, second: Seq<Event>)
    ensures
        run(engine, first + second) == run(run(engine, first), second),
    decreases second.len(),
{
    if second.len() == 0 {
        assert(first + second == first);
    } else {
        assert((first + second).drop_last() == first + second.drop_last());
        lemma_run_joins(engine, first, second.drop_last());
    }
}

/// What is heard over two runs, one after the other.
pub proof fn lemma_heard_joins(engine: Engine, first: Seq<Event>, second: Seq<Event>)
    ensures
        heard(engine, first + second) == heard(engine, first) + heard(
            run(engine, first),
            second,
        ),
    decreases second.len(),
{
    if second.len() == 0 {
        assert(first + second == first);
        assert(heard(engine, first) + Seq::<Sample>::empty() == heard(engine, first));
    } else {
        assert((first + second).drop_last() == first + second.drop_last());
        lemma_heard_joins(engine, first, second.drop_last());
        lemma_run_joins(engine, first, second.drop_last());
        let before = heard(engine, first);
        let middle = heard(run(engine, first), second.drop_last());
        if second.last() is Pull {
            let after = run(run(engine, first), second.drop_last());
            let sample = pull(after.pipeline, after.controls).sample;
            assert((before + middle).push(sample) == before + middle.push(sample));
        }
    }
}

} // verus!
