//! The expiry sweeper: when a sweep may start, and what to make of its end.

use crate::error::StoreError;
use crate::routes::{LogEntry, LogLevel};
use vstd::prelude::*;
use vstd::string::StringExecFns;

verus! {

/// How often the sweeper is woken: once a minute, at second 1.
pub const CLEANING_JOB_CRON_EXPRESSION: &'static str = "1/60 * * * * *";

/// Reads the clock with `chrono::Utc::now` and gives the instant in
/// microseconds since the epoch. Trusted, with nothing claimed: any instant
/// may come back. The call panics on a clock that stands before the epoch.
#[verifier::external_body]
fn current_time() -> (now: i64) {
    chrono::Utc::now().timestamp_micros()
}

/// The text of the log line for a sweep that failed.
pub open spec fn sweep_report(error: StoreError) -> Seq<char> {
    "Error while deleting expired links: "@ + error.cause@
}

/// The state of the recurring sweep. At most one sweep is under way at a
/// time, and the end of a sweep, whatever it was, frees the next.
pub struct Sweeper {
    running: bool,
}

impl Sweeper {
    /// Whether a sweep is under way.
    pub closed spec fn is_running(&self) -> bool {
        self.running
    }

    /// A sweeper at rest.
    pub fn new() -> (sweeper: Sweeper)
        ensures
            !sweeper.is_running(),
    {
        Sweeper { running: false }
    }

    /// A tick of the schedule at the instant `now`. At rest, a sweep starts:
    /// the result is the instant up to which links count as expired, `now`
    /// itself. While a sweep is under way the tick is passed over.
    pub fn tick_at(&mut self, now: i64) -> (cutoff: Option<i64>)
        ensures
            final(self).is_running(),
            cutoff == (if old(self).is_running() {
                None
            } else {
                Some(now)
            }),
    {
        if self.running {
            None
        } else {
            self.running = true;
            Some(now)
        }
    }

    /// A tick of the schedule now: [`Sweeper::tick_at`] at what the clock
    /// says.
    pub fn tick(&mut self) -> (cutoff: Option<i64>)
        ensures
            final(self).is_running(),
            old(self).is_running() <==> cutoff is None,
    {
        let now = current_time();
        self.tick_at(now)
    }

    /// The end of the sweep under way, with what the store returned for it.
    /// The sweeper is at rest again in every case; a failure leaves an error
    /// line for the log and nothing else.
    pub fn finished(&mut self, outcome: Result<u64, StoreError>) -> (entry: Option<LogEntry>)
        ensures
            !final(self).is_running(),
            match outcome {
                Ok(_) => entry is None,
                Err(error) => entry matches Some(line) && line.level == LogLevel::Error
                    && line.message@ == sweep_report(error),
            },
    {
        self.running = false;
        match outcome {
            Ok(_) => None,
            Err(error) => Some(
                LogEntry {
                    level: LogLevel::Error,
                    message: String::from_str("Error while deleting expired links: ").concat(
                        error.cause.as_str(),
                    ),
                },
            ),
        }
    }
}

} // verus!
