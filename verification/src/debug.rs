//! Timing of scopes: a value that remembers when it was made and under which
//! message and level the time since then is to be logged.

use std::borrow::Cow;
use std::time::{Duration, Instant};
use vstd::prelude::*;

verus! {

/// `std::time::Instant`: a point in time, carried as it is. Nothing is said
/// of what it holds.
#[verifier::external_type_specification]
#[verifier::external_body]
pub struct ExInstant(Instant);

/// How much a log entry matters.
#[derive(Clone, Copy, Debug, PartialEq, Eq, Structural)]
pub enum Level {
    Error,
    Warn,
    Info,
    Debug,
    Trace,
}

/// What a timing logs besides its message when its scope ends.
#[derive(Clone, Copy, Debug)]
pub struct Entry {
    pub level: Level,
    pub elapsed: Duration,
}

/// A point in time, a level and a message.
#[derive(Debug)]
pub struct Timing<'a> {
    pub start: Instant,
    pub level: Level,
    pub msg: Cow<'a, str>,
}

/// Calls `std::time::Instant::now`. Nothing is said of the instant it gives.
#[verifier::external_body]
fn now() -> Instant {
    Instant::now()
}

/// Calls `std::time::Instant::duration_since`. Nothing is said of the
/// duration it gives.
#[verifier::external_body]
fn duration_since(later: &Instant, earlier: &Instant) -> Duration {
    later.duration_since(*earlier)
}

impl<'a> Default for Timing<'a> {
    /// A timing that starts now, at level `Trace`, with the message `TIME!`.
    fn default() -> (timing: Self)
        ensures
            timing.level == Level::Trace,
            timing.msg@ == "TIME!"@,
    {
        Timing { start: now(), level: Level::Trace, msg: Cow::Borrowed("TIME!") }
    }
}

impl<'a> Timing<'a> {
    /// A timing that starts now, at level `Trace`, with the message that
    /// `msg` converts to.
    pub fn new<N>(msg: N) -> (timing: Self) where N: Into<Cow<'a, str>>
        ensures
            timing.level == Level::Trace,
            call_ensures(N::into, (msg,), timing.msg),
    {
        Timing { start: now(), level: Level::Trace, msg: msg.into() }
    }

    /// The time since the timing was made.
    pub fn elapsed(&self) -> Duration {
        let current = now();
        duration_since(&current, &self.start)
    }

    /// The log entry of the timing: its level and the time since it was
    /// made. The caller writes it out, with the message.
    pub fn log(&self) -> (entry: Entry)
        ensures
            entry.level == self.level,
    {
        Entry { level: self.level, elapsed: self.elapsed() }
    }
}

} // verus!
