//! The capture session and its scheduling policy.
//!
//! A session owns the storage root, a running flag, the error log, and the
//! metadata store handle. It is a two-state machine: starting an
//! already-running session and stopping a non-running one are rejected.
//! The host drives one capture-and-process tick at a time; the outcome of
//! a tick decides the following sleep — three fixed tiers, not exponential
//! backoff. Failures never escape a tick: they are appended to the error
//! log and answered with the long sleep, and the loop retries until the
//! session is stopped. Cancellation is cooperative: the flag is re-checked
//! at the top of each tick, so stop latency is bounded by one tick plus
//! its trailing sleep.

use vstd::prelude::*;
use vstd::string::*;
use crate::errorlog::{ERROR_LOG_CAPACITY, ErrorLog, ErrorLogEntry};
use crate::errors::EngineError;
use crate::store::ScreenshotDatabase;

verus! {

/// Outcome of one capture-and-process tick.
#[derive(Clone, Copy, PartialEq, Eq, Structural, Debug)]
pub enum TickOutcome {
    /// A non-blank frame was normalized, written and recorded.
    FrameAccepted,
    /// The frame was classified blank and its file deleted.
    FrameBlank,
    /// Some stage failed; the failure was logged.
    TickFailed,
}

/// Seconds to sleep after a tick: a short beat after an accepted frame, a
/// medium-long pause after a blank frame (screen likely locked or idle),
/// and a long backoff after a failure.
pub fn sleep_secs_after(outcome: TickOutcome) -> (r: u64)
    ensures
        outcome == TickOutcome::FrameAccepted ==> r == 1,
        outcome == TickOutcome::FrameBlank ==> r == 10,
        outcome == TickOutcome::TickFailed ==> r == 60,
{
    match outcome {
        TickOutcome::FrameAccepted => 1,
        TickOutcome::FrameBlank => 10,
        TickOutcome::TickFailed => 60,
    }
}

/// A capture session: storage root, running flag, error log, and metadata
/// store handle.
pub struct Photographer {
    timelapse_root_path: String,
    running: bool,
    error_logs: ErrorLog,
    db: ScreenshotDatabase,
}

impl Photographer {
    /// Whether the session is running.
    pub closed spec fn spec_running(&self) -> bool {
        self.running
    }

    /// The error log's contents.
    pub closed spec fn log_view(&self) -> Seq<(i64, Seq<char>)> {
        self.error_logs@
    }

    /// The storage root path.
    pub closed spec fn spec_root(&self) -> Seq<char> {
        self.timelapse_root_path@
    }

    /// The metadata store handle.
    pub closed spec fn spec_db(&self) -> ScreenshotDatabase {
        self.db
    }

    /// The session's error log never exceeds its capacity.
    pub closed spec fn wf(&self) -> bool {
        self.error_logs.wf()
    }

    /// Creates a session rooted at `timelapse_root_path` (which must
    /// already exist as a directory): opens the metadata store at
    /// `<root>/screenshots.db`, with the running flag down and an empty
    /// error log. Construction fails only on a storage error — resolving
    /// the home directory and creating the root are the host's work before
    /// this call — and then no session exists.
    pub fn new(timelapse_root_path: &str) -> (r: Result<Photographer, EngineError>)
        ensures
            r matches Ok(p) ==> p.wf() && !p.spec_running() && p.log_view() == Seq::<
                (i64, Seq<char>),
            >::empty() && p.spec_root() == timelapse_root_path@,
            r matches Err(e) ==> e matches EngineError::DatabaseError(_),
    {
        let db_path = timelapse_root_path.to_owned().concat("/screenshots.db");
        let db = match ScreenshotDatabase::new(db_path.as_str()) {
            Ok(d) => d,
            Err(e) => return Err(e),
        };
        Ok(
            Photographer {
                timelapse_root_path: timelapse_root_path.to_owned(),
                running: false,
                error_logs: ErrorLog::new(),
                db,
            },
        )
    }

    /// Raises the running flag. Returns whether the transition was
    /// accepted: starting an already-running session is rejected.
    pub fn start(&mut self) -> (r: bool)
        requires
            old(self).wf(),
        ensures
            final(self).wf(),
            final(self).spec_running(),
            r == !old(self).spec_running(),
            final(self).log_view() == old(self).log_view(),
            final(self).spec_root() == old(self).spec_root(),
            final(self).spec_db() == old(self).spec_db(),
    {
        let was_running = self.running;
        self.running = true;
        !was_running
    }

    /// Lowers the running flag. Returns whether the transition was
    /// accepted: stopping a non-running session is rejected. Cancellation
    /// is cooperative only — an in-flight tick still completes.
    pub fn stop(&mut self) -> (r: bool)
        requires
            old(self).wf(),
        ensures
            final(self).wf(),
            !final(self).spec_running(),
            r == old(self).spec_running(),
            final(self).log_view() == old(self).log_view(),
            final(self).spec_root() == old(self).spec_root(),
            final(self).spec_db() == old(self).spec_db(),
    {
        let was_running = self.running;
        self.running = false;
        was_running
    }

    /// Whether the session is currently running.
    pub fn is_running(&self) -> (r: bool)
        ensures
            r == self.spec_running(),
    {
        self.running
    }

    /// Appends one failure to the error log under the bounded-append rule:
    /// at capacity, the oldest entry is evicted first.
    pub fn append_error(&mut self, entry: ErrorLogEntry)
        requires
            old(self).wf(),
        ensures
            final(self).wf(),
            old(self).log_view().len() < ERROR_LOG_CAPACITY ==> final(self).log_view() == old(
                self,
            ).log_view().push(entry@),
            old(self).log_view().len() == ERROR_LOG_CAPACITY ==> final(self).log_view() == old(
                self,
            ).log_view().drop_first().push(entry@),
            final(self).spec_running() == old(self).spec_running(),
            final(self).spec_root() == old(self).spec_root(),
            final(self).spec_db() == old(self).spec_db(),
    {
        self.error_logs.append(entry);
    }

    /// A snapshot copy of the error log, oldest first.
    pub fn get_error_logs(&self) -> (copy: Vec<ErrorLogEntry>)
        ensures
            copy@.map_values(|e: ErrorLogEntry| e@) == self.log_view(),
    {
        self.error_logs.snapshot()
    }

    /// Empties the error log.
    pub fn clear_error_logs(&mut self)
        ensures
            final(self).wf(),
            final(self).log_view() == Seq::<(i64, Seq<char>)>::empty(),
            final(self).spec_running() == old(self).spec_running(),
            final(self).spec_root() == old(self).spec_root(),
            final(self).spec_db() == old(self).spec_db(),
    {
        self.error_logs.clear();
    }

    /// Records one accepted frame's metadata row in the store, leaving the
    /// session state untouched; on failure nothing is stored and the error
    /// is a storage error.
    pub fn insert_screenshot(
        &mut self,
        frame_number: u32,
        created_at: &str,
        local_time: &str,
    ) -> (r: Result<(), EngineError>)
        requires
            old(self).wf(),
        ensures
            final(self).wf(),
            final(self).spec_running() == old(self).spec_running(),
            final(self).log_view() == old(self).log_view(),
            final(self).spec_root() == old(self).spec_root(),
            r matches Ok(_) ==> ({
                &&& final(self).spec_db().frame_rows() == old(self).spec_db().frame_rows().push(
                    (frame_number as int, created_at@, local_time@),
                )
                &&& final(self).spec_db().ledger() == old(self).spec_db().ledger()
            }),
            r matches Err(e) ==> ({
                &&& e matches EngineError::DatabaseError(_)
                &&& final(self).spec_db().frame_rows() == old(self).spec_db().frame_rows()
                &&& final(self).spec_db().ledger() == old(self).spec_db().ledger()
            }),
    {
        self.db.insert_screenshot(frame_number, created_at, local_time)
    }

    /// The metadata store handle, for lookups.
    pub fn database(&self) -> (r: &ScreenshotDatabase)
        ensures
            *r == self.spec_db(),
    {
        &self.db
    }

    /// The storage root path the session was created with.
    pub fn root_path(&self) -> (r: &str)
        ensures
            r@ == self.spec_root(),
    {
        self.timelapse_root_path.as_str()
    }
}

} // verus!
