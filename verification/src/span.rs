//! Time spans in whole seconds.

use vstd::prelude::*;

verus! {

/// A region of a track: `duration` seconds from second `start` on.
///
/// Every pair of values is a span; one of zero duration is empty.
#[derive(Copy, Clone, Debug, PartialEq, Eq, Structural)]
pub struct TimeSpan {
    pub start: u32,
    pub duration: u32,
}

impl TimeSpan {
    /// The second at which the span ends. It may lie beyond `u32::MAX`.
    pub open spec fn end(self) -> int {
        self.start + self.duration
    }

    /// What `elapsed` returns for a published position of `progress` seconds.
    pub open spec fn elapsed_at(self, progress: u32) -> int {
        if progress >= self.start {
            progress - self.start
        } else {
            self.start as int
        }
    }

    /// The span of `duration` seconds that begins at second `start`.
    #[inline]
    pub fn new(start: u32, duration: u32) -> (span: Self)
        ensures
            span == (TimeSpan { start, duration }),
    {
        TimeSpan { start, duration }
    }

    /// The span from second `start` to second `end`. Where `end` lies before
    /// `start` the span is empty.
    pub fn between(start: u32, end: u32) -> (span: Self)
        ensures
            span.start == start,
            span.duration == if end >= start { end - start } else { 0 },
    {
        if end >= start {
            TimeSpan { start, duration: end - start }
        } else {
            TimeSpan { start, duration: 0 }
        }
    }

    /// Seconds played so far when the published position is `progress`: the
    /// distance from the span's start, or the start itself while the position
    /// still lies before it.
    pub fn elapsed(&self, progress: u32) -> (seconds: u32)
        ensures
            seconds == self.elapsed_at(progress),
    {
        if progress >= self.start {
            progress - self.start
        } else {
            self.start
        }
    }
}

impl Default for TimeSpan {
    /// The empty span at the start of the track.
    fn default() -> (span: Self)
        ensures
            span == (TimeSpan { start: 0, duration: 0 }),
    {
        TimeSpan { start: 0, duration: 0 }
    }
}

} // verus!
