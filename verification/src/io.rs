//! The I/O capability the host implements for the core.

use vstd::prelude::*;

use crate::election::{Ballot, Role};
use crate::error::Error;
use crate::log::{Log, LogIndex, LogPrefix, LogSuffix};
use crate::message::Message;
use crate::node::NodeId;

verus! {

/// The durable and networked operations the core depends on.
///
/// Every long-running operation is a handle created by a `start` call and
/// driven by a `poll` call; polling never blocks. Nothing is promised of
/// any outcome: the core is verified against every behaviour an
/// implementation may exhibit.
pub trait Io: Sized {
    /// A role-scoped single-shot deadline.
    type Timeout;

    /// An in-flight read of a log range.
    type LoadLog;

    /// An in-flight durable write of log data.
    type SaveLog;

    /// An in-flight durable write of a ballot.
    type SaveBallot;

    /// An in-flight read of the persisted ballot.
    type LoadBallot;

    /// Arms a fresh deadline whose length depends on the role. Creating a
    /// new deadline and dropping the old one cancels the old one.
    fn create_timeout(&mut self, role: Role) -> Self::Timeout;

    /// Whether the deadline has passed; `Ok(true)` means it fired.
    fn poll_timeout(&mut self, timeout: &mut Self::Timeout) -> Result<bool, Error>;

    /// The next inbound message, if one has arrived; never blocks.
    fn try_recv_message(&mut self) -> Result<Option<Message>, Error>;

    /// Hands a message to the transport for delivery to `destination`.
    fn send_message(&mut self, destination: &NodeId, message: Message);

    /// Starts reading the log from `start` up to `end` (or to the current
    /// tail when `end` is `None`).
    fn load_log(&mut self, start: LogIndex, end: Option<LogIndex>) -> Self::LoadLog;

    /// Whether the read finished; `Ok(Some(log))` hands out its result.
    fn poll_load_log(&mut self, task: &mut Self::LoadLog) -> Result<Option<Log>, Error>;

    /// Starts appending `suffix` durably at its head position.
    fn save_log_suffix(&mut self, suffix: &LogSuffix) -> Self::SaveLog;

    /// Starts writing `prefix` durably as the new start of the log.
    fn save_log_prefix(&mut self, prefix: &LogPrefix) -> Self::SaveLog;

    /// Whether the write is durable; `Ok(true)` means it is.
    fn poll_save_log(&mut self, task: &mut Self::SaveLog) -> Result<bool, Error>;

    /// Starts persisting `ballot` durably.
    fn save_ballot(&mut self, ballot: Ballot) -> Self::SaveBallot;

    /// Starts restoring the persisted ballot.
    fn load_ballot(&mut self) -> Self::LoadBallot;
}

} // verus!
