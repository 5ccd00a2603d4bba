//! Messages exchanged between cluster members.

use vstd::prelude::*;

use crate::election::Term;
use crate::log::{LogIndex, LogPosition, LogPrefix, LogSuffix};
use crate::node::NodeId;

verus! {

/// The sequence number of an outgoing call; a reply carries the number of
/// the call it answers.
#[derive(Debug, Clone, Copy, PartialEq, Eq, Structural, Hash)]
pub struct SequenceNumber(pub u64);

impl SequenceNumber {
    /// Builds a sequence number.
    pub fn new(n: u64) -> (s: SequenceNumber)
        ensures
            s.0 == n,
    {
        SequenceNumber(n)
    }

    /// The number itself.
    pub fn as_u64(&self) -> (n: u64)
        ensures
            n == self.0,
    {
        self.0
    }
}

/// The header common to every message.
#[derive(Debug)]
pub struct MessageHeader {
    pub sender: NodeId,
    pub term: Term,
    pub seq_no: SequenceNumber,
}

impl Clone for MessageHeader {
    fn clone(&self) -> (c: Self)
        ensures
            c == *self,
    {
        MessageHeader { sender: self.sender.clone(), term: self.term, seq_no: self.seq_no }
    }
}

/// A message of the Raft protocol.
#[derive(Debug, Clone)]
pub enum Message {
    /// A candidate asks for a vote, carrying the tail of its log.
    RequestVoteCall { header: MessageHeader, log_tail: LogPosition },
    /// The answer to a vote request.
    RequestVoteReply { header: MessageHeader, voted: bool },
    /// A leader replicates a suffix of its log.
    AppendEntriesCall { header: MessageHeader, committed_log_tail: LogIndex, suffix: LogSuffix },
    /// The answer to a replication call, carrying the receiver's log tail.
    AppendEntriesReply { header: MessageHeader, log_tail: LogPosition },
    /// A leader hands a snapshot prefix to a member that lags too far.
    InstallSnapshotCast { header: MessageHeader, prefix: LogPrefix },
}

impl Message {
    /// The header of this message.
    pub open spec fn spec_header(self) -> MessageHeader {
        match self {
            Message::RequestVoteCall { header, .. } => header,
            Message::RequestVoteReply { header, .. } => header,
            Message::AppendEntriesCall { header, .. } => header,
            Message::AppendEntriesReply { header, .. } => header,
            Message::InstallSnapshotCast { header, .. } => header,
        }
    }

    /// The header of this message.
    pub fn header(&self) -> (h: &MessageHeader)
        ensures
            *h == self.spec_header(),
    {
        match self {
            Message::RequestVoteCall { header, .. } => header,
            Message::RequestVoteReply { header, .. } => header,
            Message::AppendEntriesCall { header, .. } => header,
            Message::AppendEntriesReply { header, .. } => header,
            Message::InstallSnapshotCast { header, .. } => header,
        }
    }
}

} // verus!
