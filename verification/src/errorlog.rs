//! Bounded in-memory log of recent failures.
//!
//! The log is an append-only sequence in arrival order, capped at
//! [`ERROR_LOG_CAPACITY`] entries. Once the cap is reached, each append
//! evicts the oldest entry (strict FIFO, one eviction per append). The log
//! is never persisted; it is reset whenever the owning session is recreated.

use vstd::prelude::*;

verus! {

/// Maximum number of entries the log retains.
pub const ERROR_LOG_CAPACITY: usize = 10000;

/// One recorded failure: a UTC timestamp (milliseconds since the Unix epoch)
/// and a free-text message.
pub struct ErrorLogEntry {
    pub timestamp: i64,
    pub error_message: String,
}

impl View for ErrorLogEntry {
    type V = (i64, Seq<char>);

    open spec fn view(&self) -> (i64, Seq<char>) {
        (self.timestamp, self.error_message@)
    }
}

/// Capacity-bounded FIFO log of [`ErrorLogEntry`] values.
pub struct ErrorLog {
    entries: Vec<ErrorLogEntry>,
}

impl View for ErrorLog {
    type V = Seq<(i64, Seq<char>)>;

    closed spec fn view(&self) -> Seq<(i64, Seq<char>)> {
        self.entries@.map_values(|e: ErrorLogEntry| e@)
    }
}

impl ErrorLog {
    /// The log never holds more than `ERROR_LOG_CAPACITY` entries.
    pub open spec fn wf(&self) -> bool {
        self@.len() <= ERROR_LOG_CAPACITY
    }

    /// An empty log.
    pub fn new() -> (log: ErrorLog)
        ensures
            log.wf(),
            log@ =~= Seq::<(i64, Seq<char>)>::empty(),
    {
        let log = ErrorLog { entries: Vec::new() };
        proof {
            assert(log@ =~= Seq::<(i64, Seq<char>)>::empty());
        }
        log
    }

    /// Number of retained entries.
    pub fn len(&self) -> (n: usize)
        ensures
            n == self@.len(),
    {
        self.entries.len()
    }

    /// Appends at the tail; if the log is full, the oldest entry is dropped.
    pub fn append(&mut self, entry: ErrorLogEntry)
        requires
            old(self).wf(),
        ensures
            final(self).wf(),
            old(self)@.len() < ERROR_LOG_CAPACITY ==> final(self)@ == old(self)@.push(entry@),
            old(self)@.len() == ERROR_LOG_CAPACITY ==> final(self)@ == old(self)@.drop_first().push(
                entry@,
            ),
    {
        let ghost pre = self.entries@;
        self.entries.push(entry);
        assert(self.entries@.map_values(|e: ErrorLogEntry| e@) =~= pre.map_values(
            |e: ErrorLogEntry| e@,
        ).push(self.entries@.last()@));
        if self.entries.len() > ERROR_LOG_CAPACITY {
            let ghost mid = self.entries@;
            self.entries.remove(0);
            assert(self.entries@.map_values(|e: ErrorLogEntry| e@) =~= mid.map_values(
                |e: ErrorLogEntry| e@,
            ).drop_first());
            assert(self@ =~= pre.map_values(|e: ErrorLogEntry| e@).drop_first().push(
                mid.last()@,
            ));
        }
    }

    /// A snapshot copy of the entries, oldest first; later appends do not
    /// affect the returned vector.
    pub fn snapshot(&self) -> (copy: Vec<ErrorLogEntry>)
        ensures
            copy@.map_values(|e: ErrorLogEntry| e@) == self@,
    {
        let mut copy: Vec<ErrorLogEntry> = Vec::new();
        let n = self.entries.len();
        for i in 0..n
            invariant
                n == self.entries@.len(),
                copy@.len() == i,
                forall|j: int| 0 <= j < i ==> copy@[j]@ == #[trigger] self.entries@[j]@,
        {
            let e = &self.entries[i];
            copy.push(ErrorLogEntry { timestamp: e.timestamp, error_message: e.error_message.clone() });
        }
        assert(copy@.map_values(|e: ErrorLogEntry| e@) =~= self@);
        copy
    }

    /// Empties the log.
    pub fn clear(&mut self)
        ensures
            final(self).wf(),
            final(self)@ =~= Seq::<(i64, Seq<char>)>::empty(),
    {
        self.entries.clear();
    }
}

} // verus!
