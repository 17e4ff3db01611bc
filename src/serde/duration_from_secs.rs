//! Durations on the wire: a signed 64-bit count of whole seconds.
use crate::error::ParseFailure;
use vstd::prelude::*;

verus! {

/// A non-negative span of time.
#[derive(Debug, Clone, Copy, PartialEq, Eq)]
pub struct Duration {
    pub secs: u64,
    pub nanos: u32,
}

impl Duration {
    pub open spec fn wf(self) -> bool {
        self.nanos < 1_000_000_000
    }

    /// A span of whole seconds.
    pub fn from_secs(secs: u64) -> (r: Duration)
        ensures
            r == (Duration { secs, nanos: 0 }),
            r.wf(),
    {
        Duration { secs, nanos: 0 }
    }

    /// The whole seconds of the span.
    pub fn as_secs(&self) -> (r: u64)
        ensures
            r == self.secs,
    {
        self.secs
    }
}

/// The wire value of a duration: its whole seconds, saturated at `i64::MAX`
/// (a span longer than 292 billion years has no exact wire form).
pub open spec fn duration_wire(d: Duration) -> i64 {
    if d.secs <= i64::MAX {
        d.secs as i64
    } else {
        i64::MAX
    }
}

/// Writes a duration as its whole seconds; a fraction of a second is dropped.
pub fn serialize(duration: &Duration) -> (r: i64)
    ensures
        r == duration_wire(*duration),
{
    if duration.secs <= i64::MAX as u64 {
        duration.secs as i64
    } else {
        i64::MAX
    }
}

/// Reads a duration from a count of seconds. A negative count is no
/// duration and is refused.
pub fn deserialize(secs: i64) -> (r: Result<Duration, ParseFailure>)
    ensures
        secs >= 0 ==> r == Ok::<Duration, ParseFailure>(Duration { secs: secs as u64, nanos: 0 }),
        secs < 0 ==> r == Err::<Duration, ParseFailure>(
            ParseFailure::NegativeDuration { seconds: secs },
        ),
{
    if secs < 0 {
        Err(ParseFailure::NegativeDuration { seconds: secs })
    } else {
        Ok(Duration::from_secs(secs as u64))
    }
}

} // verus!
