//! What a stage of the sample stream offers, and the arithmetic of windows.

use vstd::prelude::*;
use crate::controls::{Controls, ControlState};
use crate::sample::Sample;
use crate::span::TimeSpan;

verus! {

/// Nanoseconds in a second.
pub const NANOS_PER_SEC: u64 = 1_000_000_000;

/// How long a track plays: whole seconds, and the nanoseconds beyond them.
#[derive(Copy, Clone, Debug, PartialEq, Eq, Structural)]
pub struct TrackLength {
    pub secs: u64,
    pub nanos: u32,
}

impl TrackLength {
    /// The length that `nanos` nanoseconds make.
    pub open spec fn of_nanos(nanos: int) -> TrackLength {
        TrackLength {
            secs: (nanos / 1_000_000_000) as u64,
            nanos: (nanos % 1_000_000_000) as u32,
        }
    }
}

/// Nanoseconds that `samples` interleaved samples last at `rate` frames a
/// second on `channels` channels.
pub open spec fn track_nanos(samples: nat, rate: u32, channels: u16) -> int {
    (1_000_000_000 * (samples as int)) / (rate as int) / (channels as int)
}

/// Samples that one second takes, all channels together.
pub open spec fn stride(channels: u16, rate: u32) -> int {
    channels * rate
}

/// A sample index held at the largest one there is.
pub open spec fn clamp_index(index: int) -> usize {
    if index > usize::MAX {
        usize::MAX
    } else {
        index as usize
    }
}

/// The index at which the window of `span` begins.
pub open spec fn window_start(stride: int, span: TimeSpan) -> usize {
    clamp_index(stride * span.start)
}

/// The index before which the window of `span` ends.
pub open spec fn window_end(stride: int, span: TimeSpan) -> usize {
    clamp_index(stride * span.end())
}

/// Where a cursor stands once the window is `start..end`: where it stood, if
/// that lies within the window or at its end, else at `start`.
pub open spec fn seek(cursor: usize, start: usize, end: usize) -> usize {
    if cursor < start || cursor > end {
        start
    } else {
        cursor
    }
}

/// A stage of the sample stream.
///
/// A pull is a function of the stage and of the controls it is handed:
/// `emitted` is the sample it yields, `advanced` the stage afterwards and
/// `signalled` the controls afterwards.
pub trait Source: Sized {
    /// What `channels` returns.
    spec fn channel_count(&self) -> u16;

    /// What `sample_rate` returns.
    spec fn rate(&self) -> u32;

    /// What `current_frame_len` returns.
    spec fn frame_len(&self) -> Option<usize>;

    /// What `total_duration` returns.
    spec fn length(&self) -> Option<TrackLength>;

    /// What `size_hint` returns.
    spec fn hint(&self) -> (usize, Option<usize>);

    /// The sample that the next pull yields; `None` where it yields none.
    spec fn emitted(&self, controls: ControlState) -> Option<Sample>;

    /// The stage as the next pull leaves it.
    spec fn advanced(&self, controls: ControlState) -> Self;

    /// The controls as the next pull leaves them.
    spec fn signalled(&self, controls: ControlState) -> ControlState;

    /// Pulls one sample.
    fn next(&mut self, controls: &mut Controls) -> (sample: Option<Sample>)
        ensures
            sample == old(self).emitted(old(controls)@),
            *final(self) == old(self).advanced(old(controls)@),
            final(controls)@ == old(self).signalled(old(controls)@),
    ;

    /// Bounds on the number of samples left, as an iterator gives them.
    fn size_hint(&self) -> (hint: (usize, Option<usize>))
        ensures
            hint == self.hint(),
    ;

    /// Samples until channels or rate may change; `None` where they never do.
    fn current_frame_len(&self) -> (len: Option<usize>)
        ensures
            len == self.frame_len(),
    ;

    /// Channels of the track, never zero.
    fn channels(&self) -> (count: u16)
        ensures
            count == self.channel_count(),
            count > 0,
    ;

    /// Frames a second, never zero.
    fn sample_rate(&self) -> (rate: u32)
        ensures
            rate == self.rate(),
            rate > 0,
    ;

    /// How long the whole track plays.
    fn total_duration(&self) -> (length: Option<TrackLength>)
        ensures
            length == self.length(),
    ;
}

/// A source whose read position can be read and set.
pub trait DirectAccess: Source {
    /// Index of the sample that the next pull reads.
    spec fn position(&self) -> usize;

    /// The source with its position at `index` and all else as it is.
    spec fn moved(&self, index: usize) -> Self;

    /// Index of the sample that the next pull reads.
    fn current(&self) -> (index: usize)
        ensures
            index == self.position(),
    ;

    /// Moves the position to `index`, whether or not the track reaches
    /// that far.
    fn set_current(&mut self, index: usize)
        ensures
            *final(self) == old(self).moved(index),
            final(self).position() == index,
            final(self).channel_count() == old(self).channel_count(),
            final(self).rate() == old(self).rate(),
    ;
}

/// A source that can go back to where its playback begins.
pub trait Resettable: Source {
    /// The source after `reset`.
    spec fn rewound(&self) -> Self;

    /// Goes back to where playback begins.
    fn reset(&mut self)
        ensures
            *final(self) == old(self).rewound(),
    ;
}

/// A source that plays a window of its track.
pub trait FloatWindow: Resettable {
    /// Index of the sample that the next pull reads.
    spec fn position(&self) -> usize;

    /// Index at which the window begins.
    spec fn origin(&self) -> usize;

    /// Index before which the window ends.
    spec fn limit(&self) -> usize;

    /// The source after `play(time)`.
    spec fn windowed(&self, time: TimeSpan) -> Self;

    /// Moves the window to `time`. The cursor stays where it is if that lies
    /// within the new window or at its end, and goes to its start otherwise.
    fn play(&mut self, time: TimeSpan)
        ensures
            *final(self) == old(self).windowed(time),
            final(self).origin() == window_start(
                stride(old(self).channel_count(), old(self).rate()),
                time,
            ),
            final(self).limit() == window_end(
                stride(old(self).channel_count(), old(self).rate()),
                time,
            ),
            final(self).position() == seek(
                old(self).position(),
                final(self).origin(),
                final(self).limit(),
            ),
            final(self).channel_count() == old(self).channel_count(),
            final(self).rate() == old(self).rate(),
    ;

    /// Index before which the window ends.
    fn end(&self) -> (index: usize)
        ensures
            index == self.limit(),
    ;

    /// Index of the sample that the next pull reads.
    fn cursor(&self) -> (index: usize)
        ensures
            index == self.position(),
    ;
}

/// The cursor of a window as a time.
pub trait Inspectable: FloatWindow {
    /// Whole seconds of the track that lie before the cursor.
    fn current_sec(&self) -> (seconds: usize)
        ensures
            seconds == self.position() / (self.channel_count() as usize) / (self.rate() as usize),
    ;
}

impl<T: FloatWindow> Inspectable for T {
    fn current_sec(&self) -> (seconds: usize) {
        self.cursor() / (self.channels() as usize) / (self.sample_rate() as usize)
    }
}

} // verus!
