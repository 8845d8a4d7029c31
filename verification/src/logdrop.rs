//! The scoped timer under its second name.

use vstd::prelude::*;
use std::time::Instant;
use crate::profiler::Timing;

verus! {

/// Starts a timer when created; [`LogDropProfiler::report`] says how long
/// ago that was.
///
/// It differs from [`crate::profiler::AutoLogger`] in name only.
pub struct LogDropProfiler {
    name: &'static str,
    start: Instant,
    level: log::Level,
}

impl LogDropProfiler {
    /// The name the timer was started under.
    pub closed spec fn spec_name(&self) -> &'static str {
        self.name
    }

    /// The severity the timer reports at.
    pub closed spec fn spec_level(&self) -> log::Level {
        self.level
    }

    /// The clock reading the timer counts from.
    pub closed spec fn spec_start(&self) -> Instant {
        self.start
    }

    /// A timer that counts from the clock reading `start`.
    #[must_use]
    pub fn started_at(name: &'static str, start: Instant, level: log::Level) -> (timer: Self)
        ensures
            timer.spec_name() == name,
            timer.spec_start() == start,
            timer.spec_level() == level,
    {
        Self { name, start, level }
    }

    /// Starts a timer now: it counts from the clock reading taken by this
    /// call, of which nothing is known beforehand.
    #[must_use]
    pub fn new(name: &'static str, level: log::Level) -> (timer: Self)
        ensures
            timer.spec_name() == name,
            timer.spec_level() == level,
    {
        Self::started_at(name, Instant::now(), level)
    }

    /// The line to report when `secs` whole seconds and `nanos` nanoseconds
    /// beyond them have gone by: the timer's own name and severity, and that
    /// time as it was given.
    pub fn report_after(&self, secs: u64, nanos: u32) -> (timing: Timing)
        ensures
            timing.name == self.spec_name(),
            timing.level == self.spec_level(),
            timing.secs == secs,
            timing.nanos == nanos,
    {
        Timing { name: self.name, level: self.level, secs, nanos }
    }

    /// The line to report now: what [`Self::report_after`] gives for the time
    /// that the clock says has gone by since the timer's start. Nothing is
    /// known of that time but that its nanoseconds stay below one second.
    pub fn report(&self) -> (timing: Timing)
        ensures
            timing.name == self.spec_name(),
            timing.level == self.spec_level(),
            timing.wf(),
    {
        let elapsed = self.start.elapsed();
        self.report_after(elapsed.as_secs(), elapsed.subsec_nanos())
    }
}

} // verus!
