//! Time codes as markers store them: whole minutes, and the seconds within
//! the minute written as hundredths. `1.30` is one minute and thirty seconds.

use vstd::prelude::*;
use crate::span::TimeSpan;

verus! {

/// A marker's time code, split at the decimal point.
///
/// `hundredths` counts seconds and is below sixty in every code that
/// `of_seconds` makes; larger values are taken as they are.
#[derive(Copy, Clone, Debug, PartialEq, Eq, Structural)]
pub struct TimeCode {
    pub minutes: u32,
    pub hundredths: u32,
}

impl TimeCode {
    /// The seconds that the code stands for.
    pub open spec fn total(self) -> int {
        self.minutes * 60 + self.hundredths
    }

    /// The seconds that `seconds` gives: the total, held at `u32::MAX` where
    /// it would pass it.
    pub open spec fn clamped_total(self) -> int {
        if self.total() > u32::MAX {
            u32::MAX as int
        } else {
            self.total()
        }
    }

    /// The code read as seconds: sixty for each minute, and the hundredths.
    pub fn seconds(&self) -> (s: u32)
        ensures
            s == self.clamped_total(),
    {
        let wide: u64 = (self.minutes as u64) * 60 + (self.hundredths as u64);
        if wide > u32::MAX as u64 {
            u32::MAX
        } else {
            wide as u32
        }
    }

    /// The code of a position given in seconds.
    pub fn of_seconds(seconds: u32) -> (code: Self)
        ensures
            code.minutes == seconds / 60,
            code.hundredths == seconds % 60,
            code.total() == seconds,
    {
        TimeCode { minutes: seconds / 60, hundredths: seconds % 60 }
    }

    /// The span between two codes, empty where `end` lies before `start`.
    pub fn span_to(&self, end: &TimeCode) -> (span: TimeSpan)
        ensures
            span.start == self.clamped_total(),
            span.duration == if end.clamped_total() >= self.clamped_total() {
                end.clamped_total() - self.clamped_total()
            } else {
                0
            },
    {
        TimeSpan::between(self.seconds(), end.seconds())
    }
}

/// Reading a code back gives the seconds it was made from.
pub proof fn lemma_code_round_trip(seconds: u32)
    ensures
        (TimeCode { minutes: seconds / 60, hundredths: seconds % 60 }).clamped_total() == seconds,
        seconds % 60 < 60,
{
}

/// Splitting the seconds of a code whose hundredths are below sixty gives the
/// code back.
pub proof fn lemma_seconds_round_trip(code: TimeCode)
    requires
        code.hundredths < 60,
        code.total() <= u32::MAX,
    ensures
        code.total() / 60 == code.minutes,
        code.total() % 60 == code.hundredths,
{
}

} // verus!
