//! Rolling operational counters with an atomic read-and-reset flush cycle.

use vstd::prelude::*;

verus! {

/// Which counter an event bumps.
#[derive(Clone, Copy, Debug, PartialEq, Eq, Structural)]
pub enum Incr {
    FetchCounter,
    NewNews,
    Errors,
}

/// Counter saturation: counters grow monotonically within a window and
/// stick at the top of the range rather than wrapping.
pub open spec fn bumped(x: u64) -> u64 {
    if x < u64::MAX { (x + 1) as u64 } else { x }
}

/// Rolling counters for one reporting window: fetch attempts, new items
/// found, errors seen, and the time the window opened.
#[derive(Debug)]
pub struct Statistics {
    pub fetch_attempts: u64,
    pub new_items: u64,
    pub errors: u64,
    pub window_start: u64,
}

impl Statistics {
    /// A fresh window opened at `now`: every counter is zero.
    pub fn new(now: u64) -> (r: Statistics)
        ensures
            r.fetch_attempts == 0,
            r.new_items == 0,
            r.errors == 0,
            r.window_start == now,
    {
        Statistics { fetch_attempts: 0, new_items: 0, errors: 0, window_start: now }
    }

    /// Bumps exactly the selected counter; the others and the window start
    /// are untouched.
    pub fn increment(&mut self, which: Incr)
        ensures
            final(self).fetch_attempts == if which == Incr::FetchCounter {
                bumped(old(self).fetch_attempts)
            } else {
                old(self).fetch_attempts
            },
            final(self).new_items == if which == Incr::NewNews {
                bumped(old(self).new_items)
            } else {
                old(self).new_items
            },
            final(self).errors == if which == Incr::Errors {
                bumped(old(self).errors)
            } else {
                old(self).errors
            },
            final(self).window_start == old(self).window_start,
    {
        match which {
            Incr::FetchCounter => {
                if self.fetch_attempts < u64::MAX {
                    self.fetch_attempts = self.fetch_attempts + 1;
                }
            },
            Incr::NewNews => {
                if self.new_items < u64::MAX {
                    self.new_items = self.new_items + 1;
                }
            },
            Incr::Errors => {
                if self.errors < u64::MAX {
                    self.errors = self.errors + 1;
                }
            },
        }
    }

    /// Atomic read-and-reset: hands back the finished window exactly as it
    /// stood and opens a fresh one at `now`. The reset is unconditional, so
    /// a lost report can drop counts but never double-count them.
    pub fn flush(&mut self, now: u64) -> (r: Statistics)
        ensures
            r == *old(self),
            final(self).fetch_attempts == 0,
            final(self).new_items == 0,
            final(self).errors == 0,
            final(self).window_start == now,
    {
        let report = Statistics {
            fetch_attempts: self.fetch_attempts,
            new_items: self.new_items,
            errors: self.errors,
            window_start: self.window_start,
        };
        self.fetch_attempts = 0;
        self.new_items = 0;
        self.errors = 0;
        self.window_start = now;
        report
    }
}

} // verus!
