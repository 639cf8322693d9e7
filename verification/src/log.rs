//! The bounded log of what was received and transmitted.

use chrono::Local;
use std::collections::VecDeque;
use vstd::prelude::*;

verus! {

/// Reads the wall clock with `chrono::Local::now` and gives the reading as
/// milliseconds since the Unix epoch (`DateTime::timestamp_millis`). Nothing
/// is claimed of the reading.
#[verifier::external_body]
fn local_now_millis() -> i64 {
    Local::now().timestamp_millis()
}

/// Direction of a transfer.
#[derive(Debug, Clone, Copy, PartialEq, Eq, Structural)]
pub enum LogDirection {
    /// Received from the port.
    Rx,
    /// Transmitted to the port.
    Tx,
}

/// A log entry as plain values.
pub struct LogEntryView {
    pub timestamp: i64,
    pub direction: LogDirection,
    pub data: Seq<u8>,
}

/// One transfer: when it happened (milliseconds since the Unix epoch), its
/// direction and its bytes.
#[derive(Debug)]
pub struct LogEntry {
    pub timestamp: i64,
    pub direction: LogDirection,
    pub data: Vec<u8>,
}

impl View for LogEntry {
    type V = LogEntryView;

    open spec fn view(&self) -> LogEntryView {
        LogEntryView { timestamp: self.timestamp, direction: self.direction, data: self.data@ }
    }
}

impl Clone for LogEntry {
    fn clone(&self) -> (r: LogEntry)
        ensures
            r@ == self@,
    {
        LogEntry {
            timestamp: self.timestamp,
            direction: self.direction,
            data: self.data.clone(),
        }
    }
}

impl LogEntry {
    /// An entry stamped with the current local time.
    pub fn new(direction: LogDirection, data: Vec<u8>) -> (r: LogEntry)
        ensures
            r@.direction == direction,
            r@.data == data@,
    {
        LogEntry { timestamp: local_now_millis(), direction, data }
    }
}

/// Largest number of entries kept in a log.
pub const MAX_LOG_LINES: usize = 10000;

/// A message log as plain values.
pub struct MessageLogView {
    /// The entries, oldest first.
    pub entries: Seq<LogEntryView>,
    /// Number of receptions logged since the log was created or cleared.
    pub rx_count: u64,
    /// Number of transmissions logged since the log was created or cleared.
    pub tx_count: u64,
}

impl MessageLogView {
    /// The log with no entries and both counters at zero.
    pub open spec fn empty() -> MessageLogView {
        MessageLogView { entries: Seq::empty(), rx_count: 0, tx_count: 0 }
    }

    /// The entries that are kept when one more is logged: the oldest entry
    /// leaves a log that is full.
    pub open spec fn kept(self) -> Seq<LogEntryView> {
        if self.entries.len() >= MAX_LOG_LINES {
            self.entries.drop_first()
        } else {
            self.entries
        }
    }

    /// `self` is what the log `before` becomes when a transfer of `data` in
    /// `direction` is logged: the new entry is the last one, behind the
    /// entries kept, and the counter of its direction has grown by one.
    pub open spec fn logged(self, before: MessageLogView, direction: LogDirection, data: Seq<u8>) -> bool {
        &&& self.entries.len() == before.kept().len() + 1
        &&& self.entries.drop_last() == before.kept()
        &&& self.entries.last().direction == direction
        &&& self.entries.last().data == data
        &&& self.rx_count == if direction == LogDirection::Rx {
            before.rx_count + 1
        } else {
            before.rx_count as int
        }
        &&& self.tx_count == if direction == LogDirection::Tx {
            before.tx_count + 1
        } else {
            before.tx_count as int
        }
    }
}

/// The transfers of one session, oldest first. Once 10000 entries are
/// held, each new entry pushes out the oldest one.
#[derive(Debug)]
pub struct MessageLog {
    pub entries: VecDeque<LogEntry>,
    pub rx_count: u64,
    pub tx_count: u64,
}

impl View for MessageLog {
    type V = MessageLogView;

    open spec fn view(&self) -> MessageLogView {
        MessageLogView {
            entries: self.entries@.map_values(|e: LogEntry| e@),
            rx_count: self.rx_count,
            tx_count: self.tx_count,
        }
    }
}

impl Clone for MessageLog {
    fn clone(&self) -> (r: MessageLog)
        ensures
            r@ == self@,
    {
        let mut entries: VecDeque<LogEntry> = VecDeque::new();
        let mut i: usize = 0;
        while i < self.entries.len()
            invariant
                i <= self.entries@.len(),
                entries@.len() == i,
                forall|j: int| 0 <= j < i ==> (#[trigger] entries@[j])@ == self.entries@[j]@,
            decreases self.entries@.len() - i,
        {
            entries.push_back(self.entries[i].clone());
            i += 1;
        }
        let r = MessageLog { entries, rx_count: self.rx_count, tx_count: self.tx_count };
        assert(r@.entries =~= self@.entries);
        r
    }
}

impl Default for MessageLog {
    fn default() -> (r: MessageLog)
        ensures
            r@ == MessageLogView::empty(),
    {
        MessageLog::new()
    }
}

impl MessageLog {
    /// An empty log.
    pub fn new() -> (r: MessageLog)
        ensures
            r@ == MessageLogView::empty(),
    {
        let r = MessageLog {
            entries: VecDeque::with_capacity(MAX_LOG_LINES),
            rx_count: 0,
            tx_count: 0,
        };
        assert(r@.entries =~= Seq::empty());
        r
    }

    /// Logs received bytes.
    pub fn push_rx(&mut self, data: Vec<u8>)
        requires
            old(self).rx_count < u64::MAX,
        ensures
            final(self)@.logged(old(self)@, LogDirection::Rx, data@),
    {
        self.push_entry(LogEntry::new(LogDirection::Rx, data));
        assert(self@.entries.drop_last() =~= old(self)@.kept());
        self.rx_count += 1;
    }

    /// Logs transmitted bytes.
    pub fn push_tx(&mut self, data: Vec<u8>)
        requires
            old(self).tx_count < u64::MAX,
        ensures
            final(self)@.logged(old(self)@, LogDirection::Tx, data@),
    {
        self.push_entry(LogEntry::new(LogDirection::Tx, data));
        assert(self@.entries.drop_last() =~= old(self)@.kept());
        self.tx_count += 1;
    }

    /// Appends an entry, after dropping the oldest one if the log is full.
    fn push_entry(&mut self, entry: LogEntry)
        ensures
            final(self)@.entries == old(self)@.kept().push(entry@),
            final(self).rx_count == old(self).rx_count,
            final(self).tx_count == old(self).tx_count,
    {
        if self.entries.len() >= MAX_LOG_LINES {
            let _ = self.entries.pop_front();
        }
        self.entries.push_back(entry);
        assert(self@.entries =~= old(self)@.kept().push(entry@));
    }

    /// Removes every entry and resets both counters.
    pub fn clear(&mut self)
        ensures
            final(self)@ == MessageLogView::empty(),
    {
        self.entries.clear();
        self.rx_count = 0;
        self.tx_count = 0;
        assert(self@.entries =~= Seq::empty());
    }

    /// Number of entries held.
    pub fn len(&self) -> (n: usize)
        ensures
            n == self@.entries.len(),
    {
        self.entries.len()
    }
}

} // verus!
