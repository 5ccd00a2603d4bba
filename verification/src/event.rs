//! Events surfaced to the host.

use vstd::prelude::*;

use crate::election::{Ballot, Role};
use crate::log::{LogEntry, LogIndex, LogPosition};

verus! {

/// An event the host observes, in the order the core produced it.
#[derive(Debug)]
pub enum Event {
    /// The node's role actually changed; emitted exactly once per change.
    RoleChanged { new_role: Role },
    /// The node's ballot actually changed; emitted exactly once per change.
    TermChanged { new_ballot: Ballot },
    /// The entry at `index` is committed and handed to the host.
    Committed { index: LogIndex, entry: LogEntry },
    /// A snapshot ending at `new_head` was loaded from the log.
    SnapshotLoaded { new_head: LogPosition, snapshot: Vec<u8> },
    /// A snapshot ending at `new_head` is durably installed.
    SnapshotInstalled { new_head: LogPosition },
}

} // verus!
