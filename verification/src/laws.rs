//! What holds of the engine, whatever the order in which the caller states
//! intents and the render path pulls, synchronises and publishes.

use vstd::prelude::*;
use vstd::arithmetic::div_mod::{
    lemma_div_denominator, lemma_div_is_ordered, lemma_div_multiples_vanish,
};
use crate::controls::ControlState;
use crate::model::{
    fits, heard, lemma_heard_joins, lemma_only_shrinks, lemma_run_joins, lemma_run_keeps,
    lemma_run_three, lemma_run_two, lemma_step_keeps, only, published, pull, pulls, run, silent,
    step, Engine, Event, PipelineState,
};
use crate::sample::{scaled, Sample, SILENCE};
use crate::source::{window_end, window_start};
use crate::span::TimeSpan;
use crate::volume::FULL_VOLUME;

verus! {

/// A second takes at least one sample, and the window of a span does not
/// end before it begins.
pub proof fn lemma_window_ordered(pipeline: PipelineState, span: TimeSpan)
    requires
        pipeline.valid(),
    ensures
        0 < pipeline.stride(),
        0 <= pipeline.stride() * span.start <= pipeline.stride() * span.end(),
        window_start(pipeline.stride(), span) <= window_end(pipeline.stride(), span),
{
    let stride = pipeline.stride();
    assert(0 < stride && 0 <= stride * span.start <= stride * span.end()) by (nonlinear_arith)
        requires
            stride == pipeline.channels * pipeline.rate,
            0 < pipeline.channels,
            0 < pipeline.rate,
            0 <= span.start <= span.end(),
    ;
}

/// A cursor within the window of `span` stands at a second of `span`, and
/// that second is what a publication writes.
pub proof fn lemma_seconds_within(pipeline: PipelineState, span: TimeSpan)
    requires
        pipeline.valid(),
        fits(pipeline, span),
        pipeline.frames(span),
        pipeline.start <= pipeline.cursor <= pipeline.end,
    ensures
        span.start <= pipeline.seconds() <= span.end(),
        published(pipeline) == pipeline.seconds(),
        pipeline.cursor == pipeline.start ==> pipeline.seconds() == span.start,
        pipeline.cursor == pipeline.end ==> pipeline.seconds() == span.end(),
{
    let stride = pipeline.stride();
    let channels = pipeline.channels as int;
    let rate = pipeline.rate as int;
    let cursor = pipeline.cursor as int;
    lemma_window_ordered(pipeline, span);
    lemma_div_denominator(cursor, channels, rate);
    lemma_div_is_ordered(stride * span.start, cursor, stride);
    lemma_div_is_ordered(cursor, stride * span.end(), stride);
    lemma_div_multiples_vanish(span.start as int, stride);
    lemma_div_multiples_vanish(span.end(), stride);
}

/// A position that lies further on is not an earlier second.
pub proof fn lemma_seconds_ordered(before: PipelineState, after: PipelineState)
    requires
        before.valid(),
        after.channels == before.channels,
        after.rate == before.rate,
        before.cursor <= after.cursor,
    ensures
        before.seconds() <= after.seconds(),
{
    let channels = before.channels as int;
    let rate = before.rate as int;
    lemma_div_is_ordered(before.cursor as int, after.cursor as int, channels);
    lemma_div_is_ordered(
        (before.cursor as int) / channels,
        (after.cursor as int) / channels,
        rate,
    );
}

/// The window of the pipeline is that of one span: its start and its end
/// come from the same intent.
pub open spec fn whole(pipeline: PipelineState) -> bool {
    exists|span: TimeSpan| pipeline.frames(span)
}

/// Whatever the caller asks for and whatever the render path does, in
/// whatever order: the window of the pipeline stays that of one span. No
/// pull meets a start that belongs to one span and an end that belongs to
/// another.
pub proof fn law_window_is_whole(engine: Engine, events: Seq<Event>)
    requires
        whole(engine.pipeline),
    ensures
        whole(run(engine, events).pipeline),
    decreases events.len(),
{
    if events.len() > 0 {
        law_window_is_whole(engine, events.drop_last());
        let before = run(engine, events.drop_last());
        let after = step(before, events.last());
        let span = choose|span: TimeSpan| before.pipeline.frames(span);
        if events.last() is Sync {
            assert(after.pipeline.frames(before.controls.window));
        } else {
            assert(after.pipeline.frames(span));
        }
    }
}

/// Whatever happens, in whatever order: the window that the controls hold
/// is the one they held at first, or a span that the caller asked for,
/// whole as it was asked for.
pub proof fn law_window_is_asked(engine: Engine, events: Seq<Event>)
    ensures
        run(engine, events).controls.window == engine.controls.window || exists|i: int|
            0 <= i < events.len() && events[i] == Event::Play(
                run(engine, events).controls.window,
            ),
    decreases events.len(),
{
    if events.len() > 0 {
        let earlier = events.drop_last();
        law_window_is_asked(engine, earlier);
        let before = run(engine, earlier);
        let after = step(before, events.last());
        if events.last() is Play {
            assert(events[events.len() - 1] == Event::Play(after.controls.window));
        } else {
            assert(after.controls.window == before.controls.window);
            if before.controls.window != engine.controls.window {
                let i = choose|i: int|
                    0 <= i < earlier.len() && earlier[i] == Event::Play(before.controls.window);
                assert(events[i] == earlier[i]);
            }
        }
    }
}

/// A pipeline that has just been put together has the window of the empty
/// span at the start of the track.
pub proof fn lemma_fresh_is_whole(samples: Seq<Sample>, channels: u16, rate: u32)
    ensures
        whole(PipelineState::fresh(samples, channels, rate)),
{
    let fresh = PipelineState::fresh(samples, channels, rate);
    let empty = TimeSpan { start: 0, duration: 0 };
    assert(fresh.stride() * 0 == 0) by (nonlinear_arith);
    assert(fresh.frames(empty));
}

/// Whatever the caller asks for and whatever the render path does, in
/// whatever order: the volume stays within its range, and channels and rate
/// stay positive.
pub proof fn law_always_valid(engine: Engine, events: Seq<Event>)
    requires
        engine.valid(),
    ensures
        run(engine, events).valid(),
{
    lemma_run_keeps(engine, events);
}

/// Once `span` has been asked for, the next synchronisation and publication
/// leave the engine tracking it.
pub proof fn law_play_is_tracked(engine: Engine, span: TimeSpan)
    requires
        engine.valid(),
        fits(engine.pipeline, span),
    ensures
        run(engine, seq![Event::Play(span), Event::Sync, Event::Publish]).tracking(span),
{
    lemma_run_three(engine, Event::Play(span), Event::Sync, Event::Publish);
    let synced = step(step(engine, Event::Play(span)), Event::Sync);
    lemma_window_ordered(engine.pipeline, span);
    lemma_seconds_within(synced.pipeline, span);
}

/// A span that is asked for while the pipeline is stopped is tracked from
/// the next synchronisation and publication on, however many samples are
/// pulled before them.
pub proof fn law_play_from_rest(engine: Engine, span: TimeSpan, count: nat)
    requires
        engine.valid(),
        fits(engine.pipeline, span),
        engine.pipeline.stopped,
        !engine.pipeline.paused,
    ensures
        run(
            engine,
            seq![Event::Play(span)] + pulls(count) + seq![Event::Sync, Event::Publish],
        ).tracking(span),
        silent(heard(engine, seq![Event::Play(span)] + pulls(count))),
{
    let asked = step(engine, Event::Play(span));
    assert(seq![Event::Play(span)].drop_last() == Seq::<Event>::empty());
    assert(run(engine, Seq::<Event>::empty()) == engine);
    assert(run(engine, seq![Event::Play(span)]) == asked);
    assert(heard(engine, Seq::<Event>::empty()) == Seq::<Sample>::empty());
    assert(heard(engine, seq![Event::Play(span)]) == Seq::<Sample>::empty());
    lemma_stopped_pulls(asked, count);
    lemma_run_joins(engine, seq![Event::Play(span)], pulls(count));
    lemma_heard_joins(engine, seq![Event::Play(span)], pulls(count));
    let idle = run(asked, pulls(count));
    lemma_run_joins(
        engine,
        seq![Event::Play(span)] + pulls(count),
        seq![Event::Sync, Event::Publish],
    );
    lemma_run_two(idle, Event::Sync, Event::Publish);
    let synced = step(idle, Event::Sync);
    lemma_window_ordered(engine.pipeline, span);
    lemma_seconds_within(synced.pipeline, span);
}

/// Pulls through a pipeline that is stopped and not paused yield silence,
/// leave the controls alone, and leave the pipeline at the start of its
/// window.
pub proof fn lemma_stopped_pulls(engine: Engine, count: nat)
    requires
        engine.pipeline.stopped,
        !engine.pipeline.paused,
    ensures
        run(engine, pulls(count)).controls == engine.controls,
        count > 0 ==> run(engine, pulls(count)).pipeline == (PipelineState {
            cursor: engine.pipeline.start,
            ..engine.pipeline
        }),
        count == 0 ==> run(engine, pulls(count)).pipeline == engine.pipeline,
        silent(heard(engine, pulls(count))),
    decreases count,
{
    if count > 0 {
        let shorter = (count - 1) as nat;
        assert(pulls(count).drop_last() == pulls(shorter));
        lemma_stopped_pulls(engine, shorter);
    }
}

/// While `span` is tracked, and until the caller asks for a stop or for
/// another window or the window runs out, the positions that the caller
/// reads never fall and never leave `span`, and the cursor never goes back.
pub proof fn law_progress_rises(engine: Engine, span: TimeSpan, events: Seq<Event>)
    requires
        engine.valid(),
        fits(engine.pipeline, span),
        engine.tracking(span),
        only(events, |e: Event| e.keeps_going()),
        !run(engine, events).controls.stopped,
    ensures
        run(engine, events).tracking(span),
        engine.controls.progress <= run(engine, events).controls.progress,
        span.start <= run(engine, events).controls.progress <= span.end(),
        engine.pipeline.cursor <= run(engine, events).pipeline.cursor,
    decreases events.len(),
{
    lemma_seconds_within(engine.pipeline, span);
    if events.len() > 0 {
        let before = run(engine, events.drop_last());
        lemma_only_shrinks(events, |e: Event| e.keeps_going());
        lemma_step_keeps(before, events.last());
        lemma_run_keeps(engine, events.drop_last());
        law_progress_rises(engine, span, events.drop_last());
        let after = step(before, events.last());
        lemma_seconds_within(before.pipeline, span);
        if events.last() is Pull {
            lemma_seconds_ordered(before.pipeline, after.pipeline);
        }
        lemma_seconds_within(after.pipeline, span);
    }
}

/// When the window has nothing left to play, the next pull yields silence
/// and marks the controls as stopped, with no call from outside; the
/// pipeline stays as it is.
pub proof fn law_end_stops(engine: Engine)
    requires
        !engine.pipeline.paused,
        !engine.pipeline.stopped,
        engine.pipeline.exhausted(),
    ensures
        step(engine, Event::Pull).controls == engine.controls.halted(),
        step(engine, Event::Pull).pipeline == engine.pipeline,
        pull(engine.pipeline, engine.controls).sample == SILENCE,
{
}

/// When the cursor has reached the end of the window of `span`, a
/// publication that follows the pull that stops the controls writes the
/// second at which `span` ends.
pub proof fn law_end_is_published(engine: Engine, span: TimeSpan)
    requires
        engine.valid(),
        fits(engine.pipeline, span),
        engine.pipeline.frames(span),
        engine.pipeline.cursor == engine.pipeline.end,
        !engine.pipeline.paused,
        !engine.pipeline.stopped,
    ensures
        step(step(engine, Event::Pull), Event::Publish).controls.stopped,
        step(step(engine, Event::Pull), Event::Publish).controls.progress == span.start
            + span.duration,
{
    lemma_window_ordered(engine.pipeline, span);
    lemma_seconds_within(engine.pipeline, span);
}

/// Once the cursor has reached the end of the window of `span`, and until
/// the next synchronisation, the pipeline stays as it is: every pull yields
/// silence, and every publication writes the second at which `span` ends.
pub proof fn law_end_holds(engine: Engine, span: TimeSpan, events: Seq<Event>)
    requires
        engine.valid(),
        fits(engine.pipeline, span),
        engine.pipeline.frames(span),
        engine.pipeline.cursor == engine.pipeline.end,
        !engine.pipeline.paused,
        !engine.pipeline.stopped,
        only(events, |e: Event| e.keeps_copies()),
    ensures
        run(engine, events).pipeline == engine.pipeline,
        silent(heard(engine, events)),
        run(engine, events).controls.progress == engine.controls.progress || run(
            engine,
            events,
        ).controls.progress == span.start + span.duration,
        events.len() > 0 && events.last() is Pull ==> run(engine, events).controls.stopped,
    decreases events.len(),
{
    lemma_window_ordered(engine.pipeline, span);
    lemma_seconds_within(engine.pipeline, span);
    if events.len() > 0 {
        lemma_only_shrinks(events, |e: Event| e.keeps_copies());
        law_end_holds(engine, span, events.drop_last());
    }
}

/// A window that the track covers is played to its end: pull by pull the
/// samples from the cursor up to the end of the window are heard, each
/// scaled to the volume; the controls stay as they are until the cursor
/// stands at the end, and the pull after that stops them.
pub proof fn law_window_is_heard(engine: Engine, count: nat)
    requires
        !engine.pipeline.paused,
        !engine.pipeline.stopped,
        engine.pipeline.cursor + count <= engine.pipeline.end,
        engine.pipeline.end <= engine.pipeline.samples.len(),
    ensures
        run(engine, pulls(count)).controls == engine.controls,
        run(engine, pulls(count)).pipeline == (PipelineState {
            cursor: (engine.pipeline.cursor + count) as usize,
            ..engine.pipeline
        }),
        heard(engine, pulls(count)) == Seq::new(
            count,
            |i: int|
                scaled(
                    engine.pipeline.samples[engine.pipeline.cursor + i],
                    engine.pipeline.volume,
                ) as Sample,
        ),
        engine.pipeline.cursor + count == engine.pipeline.end ==> step(
            run(engine, pulls(count)),
            Event::Pull,
        ).controls.stopped,
    decreases count,
{
    if count > 0 {
        let shorter = (count - 1) as nat;
        assert(pulls(count).drop_last() == pulls(shorter));
        law_window_is_heard(engine, shorter);
        assert(heard(engine, pulls(count)) == Seq::new(
            count,
            |i: int|
                scaled(
                    engine.pipeline.samples[engine.pipeline.cursor + i],
                    engine.pipeline.volume,
                ) as Sample,
        ));
    } else {
        assert(heard(engine, pulls(count)) == Seq::<Sample>::empty());
        assert(run(engine, pulls(count)).pipeline == engine.pipeline);
    }
}

/// A span that the track covers is heard to its end: once it has been asked
/// for and synchronised, pull by pull the samples from the cursor up to the
/// end of its window are heard at the volume that is asked for, and the pull
/// after the last of them stops the controls.
pub proof fn law_span_is_heard(engine: Engine, span: TimeSpan)
    requires
        engine.valid(),
        fits(engine.pipeline, span),
        engine.pipeline.stride() * span.end() <= engine.pipeline.samples.len(),
    ensures
        ({
            let started = run(engine, seq![Event::Play(span), Event::Sync]);
            let left = (started.pipeline.end - started.pipeline.cursor) as nat;
            &&& started.pipeline.frames(span)
            &&& started.pipeline.start <= started.pipeline.cursor <= started.pipeline.end
            &&& started.pipeline.volume == engine.controls.volume
            &&& heard(started, pulls(left)) == Seq::new(
                left,
                |i: int|
                    scaled(
                        engine.pipeline.samples[started.pipeline.cursor + i],
                        engine.controls.volume,
                    ) as Sample,
            )
            &&& !run(started, pulls(left)).controls.stopped
            &&& run(started, pulls(left)).pipeline.cursor == started.pipeline.end
            &&& step(run(started, pulls(left)), Event::Pull).controls.stopped
        }),
{
    lemma_run_two(engine, Event::Play(span), Event::Sync);
    let started = step(step(engine, Event::Play(span)), Event::Sync);
    lemma_window_ordered(engine.pipeline, span);
    let left = (started.pipeline.end - started.pipeline.cursor) as nat;
    law_window_is_heard(started, left);
}

/// Asking for the span again while playback is held takes it up where it
/// was held: the cursor stays, and the next pull plays on from it.
pub proof fn law_play_resumes(engine: Engine, span: TimeSpan)
    requires
        engine.holding(),
        engine.controls.window == span,
    ensures
        ({
            let resumed = run(engine, seq![Event::Play(span), Event::Sync]);
            &&& resumed.pipeline.cursor == engine.pipeline.cursor
            &&& !resumed.pipeline.paused
            &&& !resumed.pipeline.stopped
            &&& resumed.settled()
        }),
{
    lemma_run_two(engine, Event::Play(span), Event::Sync);
}

/// A stop that has been synchronised takes the cursor back with the next
/// pull: playback then rests at the start of the window.
pub proof fn law_stop_rests(engine: Engine, span: TimeSpan)
    requires
        engine.controls.window == span,
        !engine.controls.paused,
    ensures
        run(engine, seq![Event::Stop, Event::Sync, Event::Pull]).resting(span),
{
    lemma_run_three(engine, Event::Stop, Event::Sync, Event::Pull);
}

/// Playback that rests stays at rest and silent until the caller asks for a
/// window or for a pause.
pub proof fn law_rest_holds(engine: Engine, span: TimeSpan, events: Seq<Event>)
    requires
        engine.resting(span),
        only(events, |e: Event| e.keeps_stopped()),
    ensures
        run(engine, events).resting(span),
        silent(heard(engine, events)),
    decreases events.len(),
{
    if events.len() > 0 {
        lemma_only_shrinks(events, |e: Event| e.keeps_stopped());
        law_rest_holds(engine, span, events.drop_last());
    }
}

/// After a stop, asking for the same span again starts it over: the first
/// position published after the next synchronisation is the start of the
/// span, and the span is tracked from there.
pub proof fn law_restart(engine: Engine, span: TimeSpan, idle: Seq<Event>)
    requires
        engine.valid(),
        fits(engine.pipeline, span),
        engine.controls.window == span,
        !engine.controls.paused,
        only(idle, |e: Event| e.keeps_stopped()),
    ensures
        ({
            let rested = run(run(engine, seq![Event::Stop, Event::Sync, Event::Pull]), idle);
            let again = run(rested, seq![Event::Play(span), Event::Sync, Event::Publish]);
            &&& again.controls.progress == span.start
            &&& again.pipeline.cursor == again.pipeline.start
            &&& again.tracking(span)
        }),
{
    let stopped = run(engine, seq![Event::Stop, Event::Sync, Event::Pull]);
    law_stop_rests(engine, span);
    law_always_valid(engine, seq![Event::Stop, Event::Sync, Event::Pull]);
    lemma_run_keeps(engine, seq![Event::Stop, Event::Sync, Event::Pull]);
    law_rest_holds(stopped, span, idle);
    law_always_valid(stopped, idle);
    lemma_run_keeps(stopped, idle);
    let rested = run(stopped, idle);
    law_play_is_tracked(rested, span);
    lemma_run_three(rested, Event::Play(span), Event::Sync, Event::Publish);
    let synced = step(step(rested, Event::Play(span)), Event::Sync);
    lemma_window_ordered(rested.pipeline, span);
    lemma_seconds_within(synced.pipeline, span);
}

/// Pausing does not move the cursor: a pause that is synchronised into a
/// settled pipeline leaves the cursor where it is, and the engine holding.
pub proof fn law_pause_keeps_cursor(engine: Engine)
    requires
        engine.settled(),
    ensures
        step(step(engine, Event::Pause), Event::Sync).pipeline.cursor == engine.pipeline.cursor,
        step(step(engine, Event::Pause), Event::Sync).holding(),
{
}

/// While playback is held, and until the caller asks for a window, the
/// cursor does not move, every sample is silence, and every position that
/// is published is the second at which the cursor stands.
pub proof fn law_pause_holds(engine: Engine, events: Seq<Event>)
    requires
        engine.holding(),
        only(events, |e: Event| e.keeps_window()),
    ensures
        run(engine, events).holding(),
        run(engine, events).pipeline.cursor == engine.pipeline.cursor,
        silent(heard(engine, events)),
        run(engine, events).controls.progress == engine.controls.progress || run(
            engine,
            events,
        ).controls.progress == published(engine.pipeline),
    decreases events.len(),
{
    if events.len() > 0 {
        lemma_only_shrinks(events, |e: Event| e.keeps_window());
        law_pause_holds(engine, events.drop_last());
        lemma_run_keeps(engine, events.drop_last());
    }
}

/// A volume that is asked for is held to its range: below it to 0, above it
/// to 100.
pub proof fn law_volume_clamps(controls: ControlState, percent: int)
    ensures
        controls.at_volume(percent).valid(),
        percent <= 0 ==> controls.at_volume(percent).volume == 0,
        percent >= 100 ==> controls.at_volume(percent).volume == FULL_VOLUME,
        0 <= percent <= 100 ==> controls.at_volume(percent).volume == percent,
{
}

/// At volume zero nothing but silence is heard, until the caller asks for
/// a volume above zero.
pub proof fn law_mute(engine: Engine, events: Seq<Event>)
    requires
        engine.controls.volume == 0,
        engine.pipeline.volume == 0,
        only(events, |e: Event| e.keeps_mute()),
    ensures
        run(engine, events).controls.volume == 0,
        run(engine, events).pipeline.volume == 0,
        silent(heard(engine, events)),
    decreases events.len(),
{
    if events.len() > 0 {
        lemma_only_shrinks(events, |e: Event| e.keeps_mute());
        law_mute(engine, events.drop_last());
    }
}

/// At full volume a sample that is played is heard as the track holds
/// it.
pub proof fn law_full_volume(engine: Engine)
    requires
        engine.pipeline.volume == FULL_VOLUME,
        !engine.pipeline.paused,
        !engine.pipeline.stopped,
        !engine.pipeline.exhausted(),
    ensures
        pull(engine.pipeline, engine.controls).sample == engine.pipeline.samples[engine.pipeline.cursor as int],
{
}

/// The stream never ends: whatever the state, a pull yields a sample, and
/// outside the window, or while stopped or paused, that sample is silence.
pub proof fn law_silence_when_idle(engine: Engine)
    requires
        engine.pipeline.paused || engine.pipeline.stopped || engine.pipeline.exhausted(),
    ensures
        pull(engine.pipeline, engine.controls).sample == SILENCE,
{
}

} // verus!
