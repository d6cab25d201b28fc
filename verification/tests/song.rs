use melos::pipeline::{assemble, Pipeline};
use melos::sample::SILENCE;
use melos::song::{Song, PUBLISH_PERIOD_MS, SYNC_PERIOD_MS};
use melos::source::{FloatWindow, Source};
use melos::span::TimeSpan;

const RATE: u32 = 44_100;

/// A mono track of `seconds` seconds in which no sample is silence.
fn track(seconds: usize) -> Vec<i16> {
    (0..seconds * RATE as usize).map(|i| (i % 30_000) as i16 + 1).collect()
}

fn cursor(pipeline: &Pipeline) -> usize {
    pipeline.inner().inner().inner().inner().cursor()
}

fn end(pipeline: &Pipeline) -> usize {
    pipeline.inner().inner().inner().inner().end()
}

/// Pulls `count` samples, synchronising and publishing as often as the
/// periods ask at this rate.
fn render(song: &mut Song, pipeline: &mut Pipeline, pulled: &mut u64, count: u64) -> Vec<i16> {
    let sync_every = SYNC_PERIOD_MS * RATE as u64 / 1000;
    let publish_every = PUBLISH_PERIOD_MS * RATE as u64 / 1000;
    let mut heard = Vec::new();
    for _ in 0..count {
        *pulled += 1;
        if *pulled % sync_every == 0 {
            song.sync(pipeline);
        }
        if *pulled % publish_every == 0 {
            song.publish(pipeline);
        }
        heard.push(song.render(pipeline));
    }
    heard
}

#[test]
fn song_starts_with_nothing_asked_for() {
    let song = Song::new();
    assert_eq!(song.progress(), 0);
    assert!(!song.controls().stopped());
    assert!(!song.controls().paused());
    assert_eq!(song.controls().time(), TimeSpan::new(0, 0));
    assert_eq!(song.controls().volume(), 100);
}

#[test]
fn song_play_sets_the_window_and_clears_stop_and_pause() {
    let mut song = Song::new();
    song.stop();
    song.pause();
    song.play(TimeSpan::new(2, 3));
    assert_eq!(song.controls().time(), TimeSpan::new(2, 3));
    assert!(!song.controls().stopped());
    assert!(!song.controls().paused());
}

#[test]
fn song_stop_and_pause_set_their_flags_only() {
    let mut song = Song::new();
    song.play(TimeSpan::new(2, 3));
    song.stop();
    assert!(song.controls().stopped());
    assert!(!song.controls().paused());
    assert_eq!(song.controls().time(), TimeSpan::new(2, 3));
    let mut song = Song::new();
    song.pause();
    assert!(song.controls().paused());
    assert!(!song.controls().stopped());
}

#[test]
fn song_volume_is_held_to_its_range() {
    let mut song = Song::new();
    song.volume(150);
    assert_eq!(song.controls().volume(), 100);
    song.volume(-10);
    assert_eq!(song.controls().volume(), 0);
    song.volume(0);
    assert_eq!(song.controls().volume(), 0);
    song.volume(100);
    assert_eq!(song.controls().volume(), 100);
    song.volume(63);
    assert_eq!(song.controls().volume(), 63);
}

#[test]
fn periods_are_five_milliseconds_and_about_a_second() {
    assert_eq!(SYNC_PERIOD_MS, 5);
    assert_eq!(PUBLISH_PERIOD_MS, 995);
}

#[test]
fn nothing_is_heard_before_a_span_is_asked_for() {
    let mut song = Song::new();
    let mut pipeline = assemble(1, RATE, track(1)).unwrap();
    song.sync(&mut pipeline);
    assert_eq!(song.render(&mut pipeline), SILENCE);
    assert!(song.controls().stopped());
    assert_eq!(cursor(&pipeline), 0);
}

#[test]
fn a_span_asked_for_while_the_old_window_runs_out_is_stopped_again() {
    let mut song = Song::new();
    let mut pipeline = assemble(1, 4, vec![1, 2, 3, 4, 5, 6, 7, 8]).unwrap();
    song.play(TimeSpan::new(1, 1));
    assert_eq!(song.render(&mut pipeline), SILENCE);
    assert!(song.controls().stopped());
    song.sync(&mut pipeline);
    assert_eq!(song.render(&mut pipeline), SILENCE);
    assert_eq!(cursor(&pipeline), 4);
}

#[test]
fn a_span_asked_for_at_rest_is_played_from_the_next_sync_on() {
    let mut song = Song::new();
    let mut pipeline = assemble(1, 4, vec![1, 2, 3, 4, 5, 6, 7, 8]).unwrap();
    song.stop();
    song.sync(&mut pipeline);
    song.play(TimeSpan::new(1, 1));
    for _ in 0..3 {
        assert_eq!(song.render(&mut pipeline), SILENCE);
        assert!(!song.controls().stopped());
    }
    song.sync(&mut pipeline);
    assert_eq!(song.render(&mut pipeline), 5);
}

#[test]
fn an_intent_takes_effect_with_the_next_sync_only() {
    let mut song = Song::new();
    let mut pipeline = assemble(1, 4, vec![1, 2, 3, 4, 5, 6, 7, 8]).unwrap();
    song.play(TimeSpan::new(1, 1));
    assert_eq!(song.render(&mut pipeline), SILENCE);
    assert_eq!(cursor(&pipeline), 0);
    song.play(TimeSpan::new(1, 1));
    song.sync(&mut pipeline);
    assert_eq!(cursor(&pipeline), 4);
    assert_eq!(end(&pipeline), 8);
    assert_eq!(song.render(&mut pipeline), 5);
    song.stop();
    assert_eq!(song.render(&mut pipeline), 6);
    song.sync(&mut pipeline);
    assert_eq!(song.render(&mut pipeline), SILENCE);
    assert_eq!(cursor(&pipeline), 4);
}

#[test]
fn a_window_is_heard_sample_by_sample() {
    let mut song = Song::new();
    let samples: Vec<i16> = (1..=40).collect();
    let mut pipeline = assemble(2, 2, samples.clone()).unwrap();
    song.play(TimeSpan::new(3, 4));
    song.sync(&mut pipeline);
    let heard: Vec<i16> = (0..16).map(|_| song.render(&mut pipeline)).collect();
    assert_eq!(heard, samples[12..28].to_vec());
    assert!(!song.controls().stopped());
    assert_eq!(song.render(&mut pipeline), SILENCE);
    assert!(song.controls().stopped());
}

#[test]
fn progress_rises_within_the_span_while_it_plays() {
    let mut song = Song::new();
    let mut pipeline = assemble(1, RATE, track(10)).unwrap();
    let mut pulled = 0;
    render(&mut song, &mut pipeline, &mut pulled, 1_000);
    song.play(TimeSpan::new(2, 3));
    render(&mut song, &mut pipeline, &mut pulled, 44_000);
    let mut last = song.progress();
    assert_eq!(last, 2);
    while !song.controls().stopped() {
        render(&mut song, &mut pipeline, &mut pulled, 1);
        let now = song.progress();
        assert!(last <= now);
        assert!(2 <= now && now <= 5);
        last = now;
    }
    assert_eq!(last, 4);
    assert_eq!(cursor(&pipeline), 5 * RATE as usize);
}

#[test]
fn the_end_of_the_window_stops_playback_without_a_call() {
    let mut song = Song::new();
    let mut pipeline = assemble(1, 4, track(1)).unwrap();
    song.play(TimeSpan::new(1, 2));
    song.sync(&mut pipeline);
    for _ in 0..8 {
        assert_ne!(song.render(&mut pipeline), SILENCE);
        assert!(!song.controls().stopped());
    }
    assert_eq!(cursor(&pipeline), end(&pipeline));
    assert_eq!(song.render(&mut pipeline), SILENCE);
    assert!(song.controls().stopped());
    song.publish(&pipeline);
    assert_eq!(song.progress(), 3);
}

#[test]
fn a_stop_that_is_synchronised_rewinds_the_window() {
    let mut song = Song::new();
    let mut pipeline = assemble(1, 4, track(1)).unwrap();
    song.play(TimeSpan::new(1, 2));
    song.sync(&mut pipeline);
    for _ in 0..9 {
        song.render(&mut pipeline);
    }
    assert!(song.controls().stopped());
    song.sync(&mut pipeline);
    assert_eq!(song.render(&mut pipeline), SILENCE);
    assert_eq!(cursor(&pipeline), 4);
    song.publish(&pipeline);
    assert_eq!(song.progress(), 1);
}

#[test]
fn stop_then_play_starts_the_span_over() {
    let mut song = Song::new();
    let mut pipeline = assemble(1, RATE, track(10)).unwrap();
    let mut pulled = 0;
    render(&mut song, &mut pipeline, &mut pulled, 1_000);
    song.play(TimeSpan::new(2, 3));
    render(&mut song, &mut pipeline, &mut pulled, 2 * RATE as u64);
    assert_eq!(song.progress(), 3);
    song.stop();
    render(&mut song, &mut pipeline, &mut pulled, RATE as u64);
    assert_eq!(cursor(&pipeline), 2 * RATE as usize);
    song.play(TimeSpan::new(2, 3));
    song.sync(&mut pipeline);
    song.publish(&pipeline);
    assert_eq!(song.progress(), 2);
    assert_eq!(song.render(&mut pipeline), track(10)[2 * RATE as usize]);
}

#[test]
fn play_without_a_stop_goes_on_from_the_cursor() {
    let mut song = Song::new();
    let mut pipeline = assemble(1, 4, track(1)).unwrap();
    song.play(TimeSpan::new(1, 3));
    song.sync(&mut pipeline);
    for _ in 0..6 {
        song.render(&mut pipeline);
    }
    song.play(TimeSpan::new(2, 3));
    song.sync(&mut pipeline);
    assert_eq!(cursor(&pipeline), 10);
    song.play(TimeSpan::new(4, 1));
    song.sync(&mut pipeline);
    assert_eq!(cursor(&pipeline), 16);
}

#[test]
fn while_paused_the_cursor_rests_and_silence_is_heard() {
    let mut song = Song::new();
    let mut pipeline = assemble(1, RATE, track(10)).unwrap();
    let mut pulled = 0;
    render(&mut song, &mut pipeline, &mut pulled, 1_000);
    song.play(TimeSpan::new(2, 3));
    render(&mut song, &mut pipeline, &mut pulled, RATE as u64 + 500);
    song.pause();
    render(&mut song, &mut pipeline, &mut pulled, 220);
    let held = cursor(&pipeline);
    song.publish(&pipeline);
    let progress = song.progress();
    assert!(held > 2 * RATE as usize);
    let heard = render(&mut song, &mut pipeline, &mut pulled, 3 * RATE as u64);
    assert!(heard.iter().all(|sample| *sample == SILENCE));
    assert_eq!(cursor(&pipeline), held);
    assert_eq!(song.progress(), progress);
    assert!(!song.controls().stopped());
}

#[test]
fn play_after_a_pause_goes_on_from_where_it_was_held() {
    let mut song = Song::new();
    let samples = track(1);
    let mut pipeline = assemble(1, 4, samples.clone()).unwrap();
    song.play(TimeSpan::new(1, 3));
    song.sync(&mut pipeline);
    for _ in 0..5 {
        song.render(&mut pipeline);
    }
    song.pause();
    song.sync(&mut pipeline);
    assert_eq!(song.render(&mut pipeline), SILENCE);
    assert_eq!(cursor(&pipeline), 9);
    song.play(TimeSpan::new(1, 3));
    song.sync(&mut pipeline);
    assert_eq!(song.render(&mut pipeline), samples[9]);
}

#[test]
fn volume_zero_is_silent_and_full_volume_is_the_track() {
    let mut song = Song::new();
    let samples = track(1);
    let mut pipeline = assemble(1, 4, samples.clone()).unwrap();
    song.play(TimeSpan::new(0, 10));
    song.volume(0);
    song.sync(&mut pipeline);
    assert_eq!(pipeline.volume(), 0);
    for _ in 0..8 {
        assert_eq!(song.render(&mut pipeline), SILENCE);
    }
    song.volume(100);
    song.sync(&mut pipeline);
    for index in 8..16 {
        assert_eq!(song.render(&mut pipeline), samples[index]);
    }
    song.volume(150);
    song.sync(&mut pipeline);
    assert_eq!(pipeline.volume(), 100);
    assert_eq!(song.render(&mut pipeline), samples[16]);
    song.volume(-10);
    song.sync(&mut pipeline);
    assert_eq!(pipeline.volume(), 0);
    assert_eq!(song.render(&mut pipeline), SILENCE);
}

#[test]
fn half_volume_halves_the_samples() {
    let mut song = Song::new();
    let mut pipeline = assemble(1, 4, vec![100, -100, 7, -7]).unwrap();
    song.play(TimeSpan::new(0, 1));
    song.volume(50);
    song.sync(&mut pipeline);
    let heard: Vec<i16> = (0..4).map(|_| song.render(&mut pipeline)).collect();
    assert_eq!(heard, vec![50, -50, 3, -3]);
}

#[test]
fn publish_writes_the_cursor_in_whole_seconds() {
    let mut song = Song::new();
    let mut pipeline = assemble(2, 4, track(1)).unwrap();
    song.play(TimeSpan::new(3, 2));
    song.sync(&mut pipeline);
    song.publish(&pipeline);
    assert_eq!(song.progress(), 3);
    for _ in 0..7 {
        song.render(&mut pipeline);
    }
    song.publish(&pipeline);
    assert_eq!(song.progress(), 3);
    song.render(&mut pipeline);
    song.publish(&pipeline);
    assert_eq!(song.progress(), 4);
}

#[test]
fn a_span_past_the_track_stops_at_once() {
    let mut song = Song::new();
    let mut pipeline = assemble(1, 4, vec![1; 8]).unwrap();
    song.play(TimeSpan::new(5, 2));
    song.sync(&mut pipeline);
    assert_eq!(song.render(&mut pipeline), SILENCE);
    assert!(song.controls().stopped());
    song.publish(&pipeline);
    assert_eq!(song.progress(), 5);
}

#[test]
fn a_span_of_no_duration_stops_at_once() {
    let mut song = Song::new();
    let mut pipeline = assemble(1, 4, vec![1; 80]).unwrap();
    song.play(TimeSpan::new(5, 0));
    song.sync(&mut pipeline);
    assert_eq!(song.render(&mut pipeline), SILENCE);
    assert!(song.controls().stopped());
    assert_eq!(cursor(&pipeline), 20);
}

#[test]
fn ten_seconds_mono_play_two_to_five() {
    let mut song = Song::new();
    let samples = track(10);
    let mut pipeline = assemble(1, RATE, samples.clone()).unwrap();
    assert_eq!(pipeline.channels(), 1);
    assert_eq!(pipeline.sample_rate(), RATE);
    let mut pulled = 0;
    render(&mut song, &mut pipeline, &mut pulled, 1_000);
    assert!(song.controls().stopped());

    song.play(TimeSpan::new(2, 3));
    assert!(!song.controls().stopped());
    let heard = render(&mut song, &mut pipeline, &mut pulled, 2 * RATE as u64);
    assert!(2 <= song.progress() && song.progress() <= 5);
    assert!(!song.controls().stopped());
    let first = heard.iter().position(|sample| *sample != SILENCE).unwrap();
    assert!(first < 220);
    assert_eq!(heard[first..], samples[2 * RATE as usize..4 * RATE as usize - first]);

    while !song.controls().stopped() {
        render(&mut song, &mut pipeline, &mut pulled, 1);
        assert!(2 <= song.progress() && song.progress() <= 5);
    }
    assert_eq!(cursor(&pipeline), 5 * RATE as usize);
    song.publish(&pipeline);
    assert!(song.controls().stopped());
    assert_eq!(song.progress(), 5);

    render(&mut song, &mut pipeline, &mut pulled, 2 * RATE as u64);
    assert!(song.controls().stopped());
    assert_eq!(cursor(&pipeline), 2 * RATE as usize);
    assert_eq!(song.progress(), 2);
}

/// A caller and a render path that take turns in an order that no schedule
/// would give: whatever comes, the engine stays whole.
#[test]
fn intents_and_rendering_in_any_order_keep_the_engine_whole() {
    let mut song = Song::new();
    let samples = track(2);
    let mut pipeline = assemble(2, 8, samples.clone()).unwrap();
    let stride = 16;
    let mut seed: u32 = 0x2545_F491;
    let mut asked = vec![TimeSpan::new(0, 0)];
    let mut window = TimeSpan::new(0, 0);
    for _ in 0..20_000 {
        seed = seed.wrapping_mul(1_664_525).wrapping_add(1_013_904_223);
        match (seed >> 24) % 16 {
            0 => {
                let span = TimeSpan::new((seed >> 8) % 7, (seed >> 12) % 5);
                asked.push(span);
                song.play(span);
            }
            1 => song.stop(),
            2 => song.pause(),
            3 => song.volume(((seed >> 8) % 400) as i32 - 150),
            4 | 5 => {
                song.sync(&mut pipeline);
                window = song.controls().time();
            }
            6 => song.publish(&pipeline),
            _ => {
                let before = cursor(&pipeline);
                let sample = song.render(&mut pipeline);
                let after = cursor(&pipeline);
                if after == before + 1 {
                    let expected = samples[before] as i32 * pipeline.volume() as i32 / 100;
                    assert_eq!(sample as i32, expected);
                } else {
                    assert!(after <= before);
                    assert_eq!(sample, SILENCE);
                }
            }
        }
        assert!(song.controls().volume() <= 100);
        assert!(pipeline.volume() <= 100);
        assert!(asked.contains(&song.controls().time()));
        assert_eq!(end(&pipeline), (window.start + window.duration) as usize * stride);
        assert!(window.start as usize * stride <= cursor(&pipeline));
        assert!(cursor(&pipeline) <= end(&pipeline));
        assert!(song.progress() <= 10);
    }
}
