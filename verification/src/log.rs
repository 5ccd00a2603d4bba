//! The local log abstraction: positions, entries, suffixes, snapshot
//! prefixes, and the history of four monotone positions.

use vstd::prelude::*;

use crate::cluster::ClusterConfig;
use crate::election::Term;
use crate::error::{Error, ErrorKind};
use crate::node::NodeId;

verus! {

/// The index of a log entry.
#[derive(Debug, Clone, Copy, PartialEq, Eq, Structural, Hash)]
pub struct LogIndex(pub u64);

impl LogIndex {
    /// Builds an index from its number.
    pub fn new(n: u64) -> (i: LogIndex)
        ensures
            i.0 == n,
    {
        LogIndex(n)
    }

    /// The number of this index.
    pub fn as_u64(&self) -> (n: u64)
        ensures
            n == self.0,
    {
        self.0
    }
}

/// A position in the log: the index of the next entry, together with the
/// term of the entry just before it.
#[derive(Debug, Clone, Copy, PartialEq, Eq, Structural, Hash)]
pub struct LogPosition {
    pub prev_term: Term,
    pub index: LogIndex,
}

/// Whether the log ending at `a` is at least as up to date as the log
/// ending at `b`: a later last term wins, and on equal last terms the
/// longer log wins.
pub open spec fn spec_newer_or_equal(a: LogPosition, b: LogPosition) -> bool {
    a.prev_term.0 > b.prev_term.0 || (a.prev_term.0 == b.prev_term.0 && a.index.0 >= b.index.0)
}

impl LogPosition {
    /// Whether the log ending here is at least as up to date as the log
    /// ending at `other`.
    pub fn is_newer_or_equal_than(&self, other: LogPosition) -> (r: bool)
        ensures
            r == spec_newer_or_equal(*self, other),
    {
        self.prev_term.0 > other.prev_term.0 || (self.prev_term.0 == other.prev_term.0
            && self.index.0 >= other.index.0)
    }
}

impl Default for LogPosition {
    /// The very start of an empty log.
    fn default() -> (p: LogPosition)
        ensures
            p == (LogPosition { prev_term: Term(0), index: LogIndex(0) }),
    {
        LogPosition { prev_term: Term(0), index: LogIndex(0) }
    }
}

/// One entry of the log.
#[derive(Debug, Clone)]
pub enum LogEntry {
    /// A no-op written by a fresh leader.
    Noop { term: Term },
    /// A configuration entry carrying a new cluster configuration.
    Config { term: Term, config: ClusterConfig },
    /// An application command.
    Command { term: Term, command: Vec<u8> },
    /// A leader-retirement entry naming a successor.
    Retire { term: Term, successor: NodeId },
}

/// The term an entry was proposed in.
pub open spec fn entry_term(e: LogEntry) -> Term {
    match e {
        LogEntry::Noop { term } => term,
        LogEntry::Config { term, .. } => term,
        LogEntry::Command { term, .. } => term,
        LogEntry::Retire { term, .. } => term,
    }
}

/// A durable compaction of the log covering all indices strictly below its
/// tail, together with the configuration active at that point.
#[derive(Debug, Clone)]
pub struct LogPrefix {
    pub tail: LogPosition,
    pub config: ClusterConfig,
    pub snapshot: Vec<u8>,
}

/// A contiguous range of entries starting at `head`.
#[derive(Debug, Clone)]
pub struct LogSuffix {
    pub head: LogPosition,
    pub entries: Vec<LogEntry>,
}

/// The index one past the last entry of a suffix, as a mathematical
/// integer (it may exceed the machine range).
pub open spec fn suffix_tail_index(s: LogSuffix) -> int {
    s.head.index.0 + s.entries@.len()
}

/// The position one past the last entry of a suffix.
pub open spec fn suffix_tail(s: LogSuffix) -> LogPosition {
    LogPosition {
        prev_term: if s.entries@.len() == 0 {
            s.head.prev_term
        } else {
            entry_term(s.entries@.last())
        },
        index: LogIndex(suffix_tail_index(s) as u64),
    }
}

impl LogSuffix {
    /// The position one past the last entry of this suffix.
    pub fn tail(&self) -> (p: LogPosition)
        requires
            suffix_tail_index(*self) <= u64::MAX,
        ensures
            p == suffix_tail(*self),
    {
        let len: u64 = self.entries.len() as u64;
        let prev_term = if self.entries.len() == 0 {
            self.head.prev_term
        } else {
            entry_term_exec(&self.entries[self.entries.len() - 1])
        };
        LogPosition { prev_term, index: LogIndex(self.head.index.0 + len) }
    }
}

/// The term an entry was proposed in.
pub fn entry_term_exec(e: &LogEntry) -> (t: Term)
    ensures
        t == entry_term(*e),
{
    match e {
        LogEntry::Noop { term } => *term,
        LogEntry::Config { term, .. } => *term,
        LogEntry::Command { term, .. } => *term,
        LogEntry::Retire { term, .. } => *term,
    }
}

/// What a log read yields: either a snapshot prefix or a suffix of plain
/// entries.
#[derive(Debug, Clone)]
pub enum Log {
    Prefix(LogPrefix),
    Suffix(LogSuffix),
}

/// The abstract state of a [`LogHistory`].
pub struct HistoryView {
    pub head: LogPosition,
    pub consumed_tail: LogIndex,
    pub committed_tail: LogIndex,
    pub tail: LogPosition,
    pub config: ClusterConfig,
}

impl HistoryView {
    /// The order that must hold among the four positions after every
    /// operation: `head <= consumed_tail <= committed_tail <= tail`.
    pub open spec fn inv(self) -> bool {
        self.head.index.0 <= self.consumed_tail.0 <= self.committed_tail.0 <= self.tail.index.0
    }
}

/// How recording a durably installed snapshot transforms a history: the
/// head moves to `new_head`, the configuration is replaced, and the other
/// positions are clamped up so the position order still holds.
pub open spec fn spec_install(h: HistoryView, new_head: LogPosition, config: ClusterConfig)
    -> HistoryView {
    HistoryView {
        head: new_head,
        consumed_tail: LogIndex(
            if h.consumed_tail.0 >= new_head.index.0 {
                h.consumed_tail.0
            } else {
                new_head.index.0
            },
        ),
        committed_tail: LogIndex(
            if h.committed_tail.0 >= new_head.index.0 {
                h.committed_tail.0
            } else {
                new_head.index.0
            },
        ),
        tail: if h.tail.index.0 >= new_head.index.0 {
            h.tail
        } else {
            new_head
        },
        config,
    }
}

/// How recording a loaded snapshot transforms a history: the head moves to
/// `new_head` unless a newer snapshot already moved it further, and the
/// consumed tail is clamped up to it.
pub open spec fn spec_loaded(h: HistoryView, new_head: LogPosition) -> HistoryView {
    HistoryView {
        head: if new_head.index.0 >= h.head.index.0 {
            new_head
        } else {
            h.head
        },
        consumed_tail: LogIndex(
            if h.consumed_tail.0 >= new_head.index.0 {
                h.consumed_tail.0
            } else {
                new_head.index.0
            },
        ),
        ..h
    }
}

/// The ordered log with four tracked positions — `head` (after-snapshot
/// boundary), `consumed_tail` (the host has been notified up to here),
/// `committed_tail` (quorum-durable), `tail` (locally appended) — plus the
/// active cluster configuration.
///
/// The tails between `head` and `tail` are tracked as plain indices: every
/// decision made on them reads only the index, while `head` and `tail`
/// carry the term of the entry before them for the up-to-date comparison
/// of vote requests.
#[derive(Debug)]
pub struct LogHistory {
    head: LogPosition,
    consumed_tail: LogIndex,
    committed_tail: LogIndex,
    tail: LogPosition,
    config: ClusterConfig,
}

impl View for LogHistory {
    type V = HistoryView;

    closed spec fn view(&self) -> HistoryView {
        HistoryView {
            head: self.head,
            consumed_tail: self.consumed_tail,
            committed_tail: self.committed_tail,
            tail: self.tail,
            config: self.config,
        }
    }
}

impl LogHistory {
    /// An empty history: all four positions at the very start.
    pub fn new(config: ClusterConfig) -> (h: LogHistory)
        ensures
            h@ == (HistoryView {
                head: LogPosition { prev_term: Term(0), index: LogIndex(0) },
                consumed_tail: LogIndex(0),
                committed_tail: LogIndex(0),
                tail: LogPosition { prev_term: Term(0), index: LogIndex(0) },
                config: config,
            }),
            h@.inv(),
    {
        let zero = LogPosition { prev_term: Term(0), index: LogIndex(0) };
        LogHistory {
            head: zero,
            consumed_tail: LogIndex(0),
            committed_tail: LogIndex(0),
            tail: zero,
            config,
        }
    }

    /// The after-snapshot boundary.
    pub fn head(&self) -> (p: LogPosition)
        ensures
            p == self@.head,
    {
        self.head
    }

    /// The position one past the last locally appended entry.
    pub fn tail(&self) -> (p: LogPosition)
        ensures
            p == self@.tail,
    {
        self.tail
    }

    /// The index up to which the host has consumed committed entries.
    pub fn consumed_tail(&self) -> (i: LogIndex)
        ensures
            i == self@.consumed_tail,
    {
        self.consumed_tail
    }

    /// The index up to which entries are known quorum-durable.
    pub fn committed_tail(&self) -> (i: LogIndex)
        ensures
            i == self@.committed_tail,
    {
        self.committed_tail
    }

    /// The active cluster configuration.
    pub fn config(&self) -> (c: &ClusterConfig)
        ensures
            c == self@.config,
    {
        &self.config
    }

    /// Records that `suffix` was appended: the tail moves to the suffix's
    /// tail. Fails with `InconsistentState` when the suffix would leave a
    /// gap (its head lies beyond the current tail), would cut below the
    /// committed tail, or would run past the machine index range.
    pub fn record_appended(&mut self, suffix: &LogSuffix) -> (r: Result<(), Error>)
        requires
            old(self)@.inv(),
        ensures
            final(self)@.inv(),
            final(self)@.head == old(self)@.head,
            final(self)@.consumed_tail == old(self)@.consumed_tail,
            final(self)@.committed_tail == old(self)@.committed_tail,
            final(self)@.config == old(self)@.config,
            (suffix.head.index.0 > old(self)@.tail.index.0
                || suffix_tail_index(*suffix) < old(self)@.committed_tail.0
                || suffix_tail_index(*suffix) > u64::MAX) ==> ({
                &&& r matches Err(e) && e.kind == ErrorKind::InconsistentState
                &&& final(self)@ == old(self)@
            }),
            (suffix.head.index.0 <= old(self)@.tail.index.0
                && old(self)@.committed_tail.0 <= suffix_tail_index(*suffix) <= u64::MAX) ==> ({
                &&& r matches Ok(u) && u == ()
                &&& final(self)@.tail == suffix_tail(*suffix)
            }),
    {
        let len: u64 = suffix.entries.len() as u64;
        if suffix.head.index.0 > self.tail.index.0 {
            return Err(Error { kind: ErrorKind::InconsistentState });
        }
        if suffix.head.index.0 > u64::MAX - len {
            return Err(Error { kind: ErrorKind::InconsistentState });
        }
        let new_tail = suffix.tail();
        if new_tail.index.0 < self.committed_tail.0 {
            return Err(Error { kind: ErrorKind::InconsistentState });
        }
        self.tail = new_tail;
        Ok(())
    }

    /// Records that the log is committed up to `new_tail`. The committed
    /// tail only advances; it cannot move back, nor past the appended
    /// tail.
    pub fn record_committed(&mut self, new_tail: LogIndex) -> (r: Result<(), Error>)
        requires
            old(self)@.inv(),
        ensures
            final(self)@.inv(),
            final(self)@.head == old(self)@.head,
            final(self)@.consumed_tail == old(self)@.consumed_tail,
            final(self)@.tail == old(self)@.tail,
            final(self)@.config == old(self)@.config,
            final(self)@.committed_tail.0 >= old(self)@.committed_tail.0,
            (new_tail.0 < old(self)@.committed_tail.0 || new_tail.0 > old(self)@.tail.index.0)
                ==> ({
                &&& r matches Err(e) && e.kind == ErrorKind::InconsistentState
                &&& final(self)@ == old(self)@
            }),
            (old(self)@.committed_tail.0 <= new_tail.0 <= old(self)@.tail.index.0) ==> ({
                &&& r matches Ok(u) && u == ()
                &&& final(self)@.committed_tail == new_tail
            }),
    {
        if new_tail.0 < self.committed_tail.0 || new_tail.0 > self.tail.index.0 {
            return Err(Error { kind: ErrorKind::InconsistentState });
        }
        self.committed_tail = new_tail;
        Ok(())
    }

    /// Records that the uncommitted suffix was truncated: the tail moves
    /// back to `new_tail`, which must not cross the committed tail.
    pub fn record_rollback(&mut self, new_tail: LogPosition) -> (r: Result<(), Error>)
        requires
            old(self)@.inv(),
        ensures
            final(self)@.inv(),
            final(self)@.head == old(self)@.head,
            final(self)@.consumed_tail == old(self)@.consumed_tail,
            final(self)@.committed_tail == old(self)@.committed_tail,
            final(self)@.config == old(self)@.config,
            (new_tail.index.0 < old(self)@.committed_tail.0
                || new_tail.index.0 > old(self)@.tail.index.0) ==> ({
                &&& r matches Err(e) && e.kind == ErrorKind::InconsistentState
                &&& final(self)@ == old(self)@
            }),
            (old(self)@.committed_tail.0 <= new_tail.index.0 <= old(self)@.tail.index.0) ==> ({
                &&& r matches Ok(u) && u == ()
                &&& final(self)@.tail == new_tail
            }),
    {
        if new_tail.index.0 < self.committed_tail.0 || new_tail.index.0 > self.tail.index.0 {
            return Err(Error { kind: ErrorKind::InconsistentState });
        }
        self.tail = new_tail;
        Ok(())
    }

    /// Records that a snapshot up to `new_head` is durably installed: the
    /// head moves forward to `new_head`, the configuration is replaced,
    /// and the other positions are clamped up so the position order still
    /// holds.
    pub fn record_snapshot_installed(&mut self, new_head: LogPosition, config: ClusterConfig)
        -> (r: Result<(), Error>)
        requires
            old(self)@.inv(),
        ensures
            final(self)@.inv(),
            final(self)@.committed_tail.0 >= old(self)@.committed_tail.0,
            final(self)@.consumed_tail.0 >= old(self)@.consumed_tail.0,
            final(self)@.head.index.0 >= old(self)@.head.index.0,
            new_head.index.0 < old(self)@.head.index.0 ==> ({
                &&& r matches Err(e) && e.kind == ErrorKind::InconsistentState
                &&& final(self)@ == old(self)@
            }),
            new_head.index.0 >= old(self)@.head.index.0 ==> ({
                &&& r matches Ok(u) && u == ()
                &&& final(self)@ == spec_install(old(self)@, new_head, config)
            }),
    {
        if new_head.index.0 < self.head.index.0 {
            return Err(Error { kind: ErrorKind::InconsistentState });
        }
        self.head = new_head;
        if self.consumed_tail.0 < new_head.index.0 {
            self.consumed_tail = new_head.index;
        }
        if self.committed_tail.0 < new_head.index.0 {
            self.committed_tail = new_head.index;
        }
        if self.tail.index.0 < new_head.index.0 {
            self.tail = new_head;
        }
        self.config = config;
        Ok(())
    }

    /// Records that a snapshot ending at `new_head` was loaded and handed
    /// to the host: the head moves to the snapshot's tail (unless a newer
    /// snapshot already moved it further) and the consumed tail is clamped
    /// up to it. The snapshot must not reach past the committed tail; the
    /// caller records the install first when it does.
    pub fn record_snapshot_loaded(&mut self, new_head: LogPosition) -> (r: Result<(), Error>)
        requires
            old(self)@.inv(),
        ensures
            final(self)@.inv(),
            final(self)@.committed_tail == old(self)@.committed_tail,
            final(self)@.tail == old(self)@.tail,
            final(self)@.config == old(self)@.config,
            final(self)@.consumed_tail.0 >= old(self)@.consumed_tail.0,
            final(self)@.head.index.0 >= old(self)@.head.index.0,
            new_head.index.0 > old(self)@.committed_tail.0 ==> ({
                &&& r matches Err(e) && e.kind == ErrorKind::InconsistentState
                &&& final(self)@ == old(self)@
            }),
            new_head.index.0 <= old(self)@.committed_tail.0 ==> ({
                &&& r matches Ok(u) && u == ()
                &&& final(self)@ == spec_loaded(old(self)@, new_head)
            }),
    {
        if new_head.index.0 > self.committed_tail.0 {
            return Err(Error { kind: ErrorKind::InconsistentState });
        }
        if new_head.index.0 >= self.head.index.0 {
            self.head = new_head;
        }
        if self.consumed_tail.0 < new_head.index.0 {
            self.consumed_tail = new_head.index;
        }
        Ok(())
    }

    /// Records that the host has consumed committed entries up to
    /// `new_tail`. The consumed tail only advances, and never past the
    /// committed tail.
    pub fn record_consumed(&mut self, new_tail: LogIndex) -> (r: Result<(), Error>)
        requires
            old(self)@.inv(),
        ensures
            final(self)@.inv(),
            final(self)@.head == old(self)@.head,
            final(self)@.committed_tail == old(self)@.committed_tail,
            final(self)@.tail == old(self)@.tail,
            final(self)@.config == old(self)@.config,
            final(self)@.consumed_tail.0 >= old(self)@.consumed_tail.0,
            (new_tail.0 < old(self)@.consumed_tail.0 || new_tail.0 > old(self)@.committed_tail.0)
                ==> ({
                &&& r matches Err(e) && e.kind == ErrorKind::InconsistentState
                &&& final(self)@ == old(self)@
            }),
            (old(self)@.consumed_tail.0 <= new_tail.0 <= old(self)@.committed_tail.0) ==> ({
                &&& r matches Ok(u) && u == ()
                &&& final(self)@.consumed_tail == new_tail
            }),
    {
        if new_tail.0 < self.consumed_tail.0 || new_tail.0 > self.committed_tail.0 {
            return Err(Error { kind: ErrorKind::InconsistentState });
        }
        self.consumed_tail = new_tail;
        Ok(())
    }
}

} // verus!
