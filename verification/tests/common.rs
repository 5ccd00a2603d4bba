use raft_core::cluster::ClusterConfig;
use raft_core::common::{Common, HandleMessageResult, NextRole};
use raft_core::election::{Ballot, Role, Term};
use raft_core::error::{Error, ErrorKind};
use raft_core::event::Event;
use raft_core::io::Io;
use raft_core::log::{Log, LogEntry, LogIndex, LogPosition, LogPrefix, LogSuffix};
use raft_core::message::{Message, MessageHeader, SequenceNumber};
use raft_core::node::NodeId;

struct TestIo {
    sent: Vec<(NodeId, Message)>,
    inbox: Vec<Message>,
    load_results: Vec<Log>,
    load_requests: Vec<(LogIndex, Option<LogIndex>)>,
    save_ready: bool,
}

impl TestIo {
    fn new() -> TestIo {
        TestIo {
            sent: Vec::new(),
            inbox: Vec::new(),
            load_results: Vec::new(),
            load_requests: Vec::new(),
            save_ready: false,
        }
    }
}

impl Io for TestIo {
    type Timeout = ();
    type LoadLog = ();
    type SaveLog = ();
    type SaveBallot = ();
    type LoadBallot = ();

    fn create_timeout(&mut self, _role: Role) {}

    fn poll_timeout(&mut self, _timeout: &mut ()) -> Result<bool, Error> {
        Ok(false)
    }

    fn try_recv_message(&mut self) -> Result<Option<Message>, Error> {
        if self.inbox.is_empty() {
            Ok(None)
        } else {
            Ok(Some(self.inbox.remove(0)))
        }
    }

    fn send_message(&mut self, destination: &NodeId, message: Message) {
        self.sent.push((destination.clone(), message));
    }

    fn load_log(&mut self, start: LogIndex, end: Option<LogIndex>) {
        self.load_requests.push((start, end));
    }

    fn poll_load_log(&mut self, _task: &mut ()) -> Result<Option<Log>, Error> {
        if self.load_results.is_empty() {
            Ok(None)
        } else {
            Ok(Some(self.load_results.remove(0)))
        }
    }

    fn save_log_suffix(&mut self, _suffix: &LogSuffix) {}

    fn save_log_prefix(&mut self, _prefix: &LogPrefix) {}

    fn poll_save_log(&mut self, _task: &mut ()) -> Result<bool, Error> {
        Ok(self.save_ready)
    }

    fn save_ballot(&mut self, _ballot: Ballot) {}

    fn load_ballot(&mut self) {}
}

fn node_id(name: &str) -> NodeId {
    NodeId::new(String::from(name))
}

fn cluster() -> ClusterConfig {
    ClusterConfig::new(vec![node_id("node1"), node_id("node2"), node_id("node3")])
}

fn new_common() -> Common<TestIo> {
    Common::new(node_id("node1"), TestIo::new(), cluster())
}

fn position(prev_term: u64, index: u64) -> LogPosition {
    LogPosition { prev_term: Term::new(prev_term), index: LogIndex::new(index) }
}

fn drain_events(common: &mut Common<TestIo>) -> Vec<Event> {
    let mut events = Vec::new();
    while let Some(event) = common.next_event() {
        events.push(event);
    }
    events
}

fn header(sender: &str, term: u64, seq_no: u64) -> MessageHeader {
    MessageHeader {
        sender: node_id(sender),
        term: Term::new(term),
        seq_no: SequenceNumber::new(seq_no),
    }
}

#[test]
fn is_snapshot_installing_works() {
    let mut common = new_common();
    let prefix = LogPrefix {
        tail: LogPosition::default(),
        config: cluster(),
        snapshot: Vec::default(),
    };

    assert!(!common.is_snapshot_installing());
    common.install_snapshot(prefix).unwrap();
    assert!(common.is_snapshot_installing());
}

#[test]
fn is_focusing_on_installing_snapshot_works() {
    let mut common = new_common();
    let prev_term = Term::new(0);
    let node_prefix = LogPrefix {
        tail: LogPosition { prev_term, index: LogIndex::new(3) },
        config: cluster(),
        snapshot: vec![0],
    };
    let log_suffix = LogSuffix {
        head: LogPosition { prev_term, index: LogIndex::new(3) },
        entries: vec![
            LogEntry::Command { term: prev_term, command: Vec::default() },
            LogEntry::Command { term: prev_term, command: Vec::default() },
            LogEntry::Command { term: prev_term, command: Vec::default() },
        ],
    };
    // The prefix of a leader is a bit ahead.
    let leader_prefix = LogPrefix {
        tail: LogPosition { prev_term, index: LogIndex::new(5) },
        config: cluster(),
        snapshot: vec![1],
    };

    assert!(!common.is_focusing_on_installing_snapshot());
    // Applies a prefix before tests.
    common.handle_log_snapshot_loaded(node_prefix).unwrap();
    common.install_snapshot(leader_prefix).unwrap();
    // The node is installing a snapshot and focusing on the installation.
    assert!(common.is_focusing_on_installing_snapshot());
    // Appends new log entries.
    // Now `committed_tail` < `the tail of a prefix(snapshot)` < `appended_tail`
    common.handle_log_appended(&log_suffix).unwrap();
    assert_eq!(common.log().tail(), LogPosition { prev_term, index: LogIndex::new(6) });
    // The node is not focusing on the installation.
    assert!(!common.is_focusing_on_installing_snapshot());
}

#[test]
fn snapshot_install_single_flight() {
    let mut common = new_common();
    let prefix = LogPrefix {
        tail: position(0, 0),
        config: cluster(),
        snapshot: Vec::new(),
    };
    assert!(common.install_snapshot(prefix).is_ok());
    assert!(common.is_snapshot_installing());
    let again = LogPrefix { tail: position(0, 0), config: cluster(), snapshot: Vec::new() };
    let err = common.install_snapshot(again).unwrap_err();
    assert_eq!(err.kind(), ErrorKind::Busy);
}

#[test]
fn snapshot_install_below_head_is_inconsistent() {
    let mut common = new_common();
    common
        .handle_log_snapshot_loaded(LogPrefix {
            tail: position(0, 5),
            config: cluster(),
            snapshot: Vec::new(),
        })
        .unwrap();
    let stale = LogPrefix { tail: position(0, 3), config: cluster(), snapshot: Vec::new() };
    let err = common.install_snapshot(stale).unwrap_err();
    assert_eq!(err.kind(), ErrorKind::InconsistentState);
}

#[test]
fn history_positions_stay_ordered() {
    let mut common = new_common();
    let suffix = LogSuffix {
        head: position(0, 0),
        entries: vec![
            LogEntry::Noop { term: Term::new(1) },
            LogEntry::Command { term: Term::new(1), command: vec![7] },
        ],
    };
    common.handle_log_appended(&suffix).unwrap();
    common.handle_log_committed(LogIndex::new(1)).unwrap();
    let log = common.log();
    assert!(log.head().index.as_u64() <= log.consumed_tail().as_u64());
    assert!(log.consumed_tail().as_u64() <= log.committed_tail().as_u64());
    assert!(log.committed_tail().as_u64() <= log.tail().index.as_u64());
    assert_eq!(log.tail(), position(1, 2));
    assert_eq!(log.committed_tail(), LogIndex::new(1));
}

#[test]
fn commit_beyond_tail_is_inconsistent() {
    let mut common = new_common();
    let err = common.handle_log_committed(LogIndex::new(4)).unwrap_err();
    assert_eq!(err.kind(), ErrorKind::InconsistentState);
}

#[test]
fn rollback_cannot_cross_committed_tail() {
    let mut common = new_common();
    let suffix = LogSuffix {
        head: position(0, 0),
        entries: vec![
            LogEntry::Noop { term: Term::new(1) },
            LogEntry::Noop { term: Term::new(1) },
        ],
    };
    common.handle_log_appended(&suffix).unwrap();
    common.handle_log_committed(LogIndex::new(2)).unwrap();
    let err = common.handle_log_rollbacked(position(0, 1)).unwrap_err();
    assert_eq!(err.kind(), ErrorKind::InconsistentState);
}

#[test]
fn set_ballot_same_value_emits_one_term_changed() {
    let mut common = new_common();
    let ballot = Ballot { term: Term::new(2), voted_for: node_id("node2") };
    common.set_ballot(ballot.clone());
    common.set_ballot(ballot);
    let events = drain_events(&mut common);
    assert_eq!(events.len(), 1);
    match &events[0] {
        Event::TermChanged { new_ballot } => {
            assert_eq!(new_ballot.term, Term::new(2));
            assert_eq!(new_ballot.voted_for, node_id("node2"));
        }
        other => panic!("unexpected event: {:?}", other),
    }
}

#[test]
fn role_change_emits_exactly_one_event_per_change() {
    let mut common = new_common();
    common.transit_to_leader();
    common.transit_to_leader();
    let events = drain_events(&mut common);
    let role_changes: Vec<&Event> = events
        .iter()
        .filter(|e| matches!(e, Event::RoleChanged { .. }))
        .collect();
    assert_eq!(role_changes.len(), 1);
    match role_changes[0] {
        Event::RoleChanged { new_role } => assert_eq!(*new_role, Role::Leader),
        _ => unreachable!(),
    }
}

#[test]
fn snapshot_installed_event_implies_committed_floor() {
    let mut common = new_common();
    let prefix = LogPrefix { tail: position(0, 5), config: cluster(), snapshot: vec![9] };
    common.install_snapshot(prefix).unwrap();
    common.io_mut().save_ready = true;
    let next = common.run_once().unwrap();
    assert!(next.is_none());
    assert!(!common.is_snapshot_installing());
    let events = drain_events(&mut common);
    let installed: Vec<&Event> = events
        .iter()
        .filter(|e| matches!(e, Event::SnapshotInstalled { .. }))
        .collect();
    assert_eq!(installed.len(), 1);
    match installed[0] {
        Event::SnapshotInstalled { new_head } => {
            assert_eq!(*new_head, position(0, 5));
            assert!(common.log_committed_tail().as_u64() >= new_head.index.as_u64());
        }
        _ => unreachable!(),
    }
    assert_eq!(common.log().head(), position(0, 5));
}

#[test]
fn higher_term_disruptor_ignored_while_following() {
    let mut common = new_common();
    common.set_ballot(Ballot { term: Term::new(3), voted_for: node_id("leaderX") });
    drain_events(&mut common);
    let message = Message::RequestVoteCall {
        header: header("nodeY", 4, 0),
        log_tail: position(0, 0),
    };
    let result = common.handle_message(message);
    assert!(matches!(result, HandleMessageResult::Handled(None)));
    assert_eq!(common.term(), Term::new(3));
    assert_eq!(common.local_node().role, Role::Follower);
    assert_eq!(common.local_node().ballot.voted_for, node_id("leaderX"));
    assert!(drain_events(&mut common).is_empty());
}

#[test]
fn higher_term_append_entries_adopts_leader() {
    let mut common = new_common();
    common.set_ballot(Ballot { term: Term::new(2), voted_for: node_id("node1") });
    common.transit_to_candidate();
    assert_eq!(common.term(), Term::new(3));
    drain_events(&mut common);
    let message = Message::AppendEntriesCall {
        header: header("nodeZ", 5, 1),
        committed_log_tail: LogIndex::new(0),
        suffix: LogSuffix { head: position(0, 0), entries: Vec::new() },
    };
    let result = common.handle_message(message);
    match result {
        HandleMessageResult::Handled(Some(NextRole::Follower { followee })) => {
            assert_eq!(followee, node_id("nodeZ"));
        }
        other => panic!("unexpected result: {:?}", other),
    }
    assert_eq!(common.term(), Term::new(5));
    assert_eq!(common.local_node().role, Role::Follower);
    assert_eq!(common.local_node().ballot.voted_for, node_id("nodeZ"));
    // The adopted message is re-delivered exactly once, ahead of the
    // transport.
    let deferred = common.try_recv_message().unwrap().unwrap();
    match &deferred {
        Message::AppendEntriesCall { header, .. } => {
            assert_eq!(header.sender, node_id("nodeZ"));
            assert_eq!(header.term, Term::new(5));
        }
        other => panic!("unexpected message: {:?}", other),
    }
    assert!(common.try_recv_message().unwrap().is_none());
}

#[test]
fn same_term_request_vote_from_non_followed_sender_is_refused() {
    let mut common = new_common();
    common.set_ballot(Ballot { term: Term::new(7), voted_for: node_id("leaderA") });
    drain_events(&mut common);
    let message = Message::RequestVoteCall {
        header: header("nodeB", 7, 4),
        log_tail: position(0, 0),
    };
    let result = common.handle_message(message);
    assert!(matches!(result, HandleMessageResult::Handled(None)));
    assert_eq!(common.term(), Term::new(7));
    assert_eq!(common.local_node().role, Role::Follower);
    let sent = &common.io().sent;
    assert_eq!(sent.len(), 1);
    assert_eq!(sent[0].0, node_id("nodeB"));
    match &sent[0].1 {
        Message::RequestVoteReply { header, voted } => {
            assert!(!voted);
            assert_eq!(header.term, Term::new(7));
            assert_eq!(header.seq_no, SequenceNumber::new(4));
        }
        other => panic!("unexpected reply: {:?}", other),
    }
}

#[test]
fn lower_term_message_gets_negative_vote_reply() {
    let mut common = new_common();
    common.set_ballot(Ballot { term: Term::new(5), voted_for: node_id("node1") });
    let message = Message::AppendEntriesCall {
        header: header("node2", 3, 9),
        committed_log_tail: LogIndex::new(0),
        suffix: LogSuffix { head: position(0, 0), entries: Vec::new() },
    };
    let result = common.handle_message(message);
    assert!(matches!(result, HandleMessageResult::Handled(None)));
    let sent = &common.io().sent;
    assert_eq!(sent.len(), 1);
    assert_eq!(sent[0].0, node_id("node2"));
    assert!(matches!(&sent[0].1, Message::RequestVoteReply { voted: false, .. }));
}

#[test]
fn leader_drops_message_from_unknown_sender() {
    let mut common = new_common();
    common.transit_to_leader();
    drain_events(&mut common);
    let message = Message::RequestVoteCall {
        header: header("stranger", 9, 0),
        log_tail: position(0, 0),
    };
    let result = common.handle_message(message);
    assert!(matches!(result, HandleMessageResult::Handled(None)));
    assert_eq!(common.term(), Term::new(0));
    assert_eq!(common.local_node().role, Role::Leader);
    assert!(common.io().sent.is_empty());
    assert!(drain_events(&mut common).is_empty());
}

#[test]
fn higher_term_vote_request_with_newer_log_wins_support() {
    let mut common = new_common();
    common.set_ballot(Ballot { term: Term::new(3), voted_for: node_id("node1") });
    drain_events(&mut common);
    let message = Message::RequestVoteCall {
        header: header("node2", 4, 0),
        log_tail: position(0, 0),
    };
    let result = common.handle_message(message);
    match result {
        HandleMessageResult::Handled(Some(NextRole::Follower { followee })) => {
            assert_eq!(followee, node_id("node2"));
        }
        other => panic!("unexpected result: {:?}", other),
    }
    assert_eq!(common.term(), Term::new(4));
    assert_eq!(common.local_node().ballot.voted_for, node_id("node2"));
    let deferred = common.try_recv_message().unwrap().unwrap();
    assert!(matches!(deferred, Message::RequestVoteCall { .. }));
}

#[test]
fn higher_term_vote_request_with_older_log_starts_candidacy() {
    let mut common = new_common();
    let suffix = LogSuffix {
        head: position(0, 0),
        entries: vec![LogEntry::Noop { term: Term::new(1) }],
    };
    common.handle_log_appended(&suffix).unwrap();
    common.set_ballot(Ballot { term: Term::new(3), voted_for: node_id("node1") });
    drain_events(&mut common);
    let message = Message::RequestVoteCall {
        header: header("node2", 5, 0),
        log_tail: position(0, 1),
    };
    let result = common.handle_message(message);
    assert!(matches!(result, HandleMessageResult::Handled(Some(NextRole::Candidate))));
    assert_eq!(common.term(), Term::new(6));
    assert_eq!(common.local_node().role, Role::Candidate);
    assert_eq!(common.local_node().ballot.voted_for, node_id("node1"));
    assert!(common.try_recv_message().unwrap().is_none());
}

#[test]
fn same_term_message_from_followed_sender_is_left_to_the_role() {
    let mut common = new_common();
    common.set_ballot(Ballot { term: Term::new(4), voted_for: node_id("node2") });
    let message = Message::AppendEntriesCall {
        header: header("node2", 4, 2),
        committed_log_tail: LogIndex::new(0),
        suffix: LogSuffix { head: position(0, 0), entries: Vec::new() },
    };
    let result = common.handle_message(message);
    match result {
        HandleMessageResult::Unhandled(message) => {
            assert_eq!(message.header().sender, node_id("node2"));
        }
        other => panic!("unexpected result: {:?}", other),
    }
}

#[test]
fn deferred_message_is_delivered_before_the_transport() {
    let mut common = new_common();
    common.set_ballot(Ballot { term: Term::new(4), voted_for: node_id("node2") });
    drain_events(&mut common);
    // A same-term append call from a different node defers the message
    // and follows the new leader.
    let message = Message::AppendEntriesCall {
        header: header("node3", 4, 0),
        committed_log_tail: LogIndex::new(0),
        suffix: LogSuffix { head: position(0, 0), entries: Vec::new() },
    };
    let result = common.handle_message(message);
    assert!(matches!(result, HandleMessageResult::Handled(Some(_))));
    common.io_mut().inbox.push(Message::RequestVoteCall {
        header: header("node2", 4, 1),
        log_tail: position(0, 0),
    });
    let first = common.try_recv_message().unwrap().unwrap();
    assert!(matches!(first, Message::AppendEntriesCall { .. }));
    let second = common.try_recv_message().unwrap().unwrap();
    assert!(matches!(second, Message::RequestVoteCall { .. }));
}

#[test]
fn retirement_commit_promotes_successor() {
    let mut common = new_common();
    common.set_ballot(Ballot { term: Term::new(9), voted_for: node_id("node1") });
    common.transit_to_leader();
    drain_events(&mut common);
    let suffix = LogSuffix {
        head: position(0, 0),
        entries: vec![LogEntry::Retire { term: Term::new(9), successor: node_id("node3") }],
    };
    common.handle_log_appended(&suffix).unwrap();
    common.handle_log_committed(LogIndex::new(1)).unwrap();
    common.io_mut().load_results.push(Log::Suffix(suffix));
    let next = common.run_once().unwrap();
    match next {
        Some(NextRole::Follower { followee }) => assert_eq!(followee, node_id("node3")),
        other => panic!("unexpected next role: {:?}", other),
    }
    assert_eq!(common.local_node().role, Role::Follower);
    assert_eq!(common.local_node().ballot.voted_for, node_id("node3"));
    assert_eq!(common.term(), Term::new(9));
    // The leader broadcast the commit to its peers before stepping down.
    let sent = &common.io().sent;
    assert_eq!(sent.len(), 2);
    for (destination, message) in sent {
        assert!(*destination == node_id("node2") || *destination == node_id("node3"));
        match message {
            Message::AppendEntriesCall { suffix, .. } => assert!(suffix.entries.is_empty()),
            other => panic!("unexpected broadcast: {:?}", other),
        }
    }
    // The commit itself reaches the host, after the retirement's role and
    // ballot events.
    let events = drain_events(&mut common);
    assert!(events
        .iter()
        .any(|e| matches!(e, Event::Committed { index, .. } if *index == LogIndex::new(0))));
    assert_eq!(common.log().consumed_tail(), LogIndex::new(1));
}

#[test]
fn retirement_commit_reenters_candidacy_for_the_successor() {
    let mut common = new_common();
    common.set_ballot(Ballot { term: Term::new(6), voted_for: node_id("node1") });
    common.transit_to_leader();
    drain_events(&mut common);
    let suffix = LogSuffix {
        head: position(0, 0),
        entries: vec![LogEntry::Retire { term: Term::new(6), successor: node_id("node1") }],
    };
    common.handle_log_appended(&suffix).unwrap();
    common.handle_log_committed(LogIndex::new(1)).unwrap();
    common.io_mut().load_results.push(Log::Suffix(suffix));
    let next = common.run_once().unwrap();
    assert!(matches!(next, Some(NextRole::Candidate)));
    assert_eq!(common.term(), Term::new(7));
    assert_eq!(common.local_node().role, Role::Candidate);
}

#[test]
fn committed_entries_surface_in_ascending_order() {
    let mut common = new_common();
    let suffix = LogSuffix {
        head: position(0, 0),
        entries: vec![
            LogEntry::Command { term: Term::new(1), command: vec![1] },
            LogEntry::Command { term: Term::new(1), command: vec![2] },
            LogEntry::Command { term: Term::new(1), command: vec![3] },
        ],
    };
    common.handle_log_appended(&suffix).unwrap();
    common.handle_log_committed(LogIndex::new(3)).unwrap();
    common.io_mut().load_results.push(Log::Suffix(suffix));
    let next = common.run_once().unwrap();
    assert!(next.is_none());
    let events = drain_events(&mut common);
    let indices: Vec<u64> = events
        .iter()
        .filter_map(|e| match e {
            Event::Committed { index, .. } => Some(index.as_u64()),
            _ => None,
        })
        .collect();
    assert_eq!(indices, vec![0, 1, 2]);
    assert_eq!(common.log().consumed_tail(), LogIndex::new(3));
    // The read asked exactly for the unconsumed committed range.
    assert_eq!(common.io().load_requests.len(), 1);
    assert_eq!(common.io().load_requests[0], (LogIndex::new(0), Some(LogIndex::new(3))));
}

#[test]
fn snapshot_load_ahead_of_install_notification_keeps_order() {
    let mut common = new_common();
    // The loaded snapshot reaches past the committed tail: the install is
    // recorded first, so the four positions stay ordered.
    let prefix = LogPrefix { tail: position(2, 4), config: cluster(), snapshot: vec![42] };
    common.handle_log_snapshot_loaded(prefix).unwrap();
    let log = common.log();
    assert_eq!(log.head(), position(2, 4));
    assert_eq!(log.consumed_tail(), LogIndex::new(4));
    assert_eq!(log.committed_tail(), LogIndex::new(4));
    assert_eq!(log.tail(), position(2, 4));
    let events = drain_events(&mut common);
    assert_eq!(events.len(), 1);
    match &events[0] {
        Event::SnapshotLoaded { new_head, snapshot } => {
            assert_eq!(*new_head, position(2, 4));
            assert_eq!(*snapshot, vec![42]);
        }
        other => panic!("unexpected event: {:?}", other),
    }
}

#[test]
fn rpc_caller_is_the_sole_advancer_of_the_sequence_counter() {
    let mut common = new_common();
    assert_eq!(common.next_seq_no(), SequenceNumber::new(0));
    let first = common.rpc_caller();
    assert_eq!(first.seq_no, SequenceNumber::new(0));
    assert_eq!(first.sender, node_id("node1"));
    assert_eq!(common.next_seq_no(), SequenceNumber::new(1));
    // Replies reuse the caller's number and advance nothing.
    let reply = common.rpc_callee(&header("node2", 0, 7));
    assert_eq!(reply.seq_no, SequenceNumber::new(7));
    assert_eq!(common.next_seq_no(), SequenceNumber::new(1));
}

#[test]
fn suffix_tail_follows_the_last_entry() {
    let suffix = LogSuffix {
        head: position(1, 3),
        entries: vec![
            LogEntry::Noop { term: Term::new(2) },
            LogEntry::Command { term: Term::new(3), command: Vec::new() },
        ],
    };
    assert_eq!(suffix.tail(), position(3, 5));
    let empty = LogSuffix { head: position(1, 3), entries: Vec::new() };
    assert_eq!(empty.tail(), position(1, 3));
}

#[test]
fn new_common_starts_as_follower_with_armed_timeout() {
    let mut common = new_common();
    assert_eq!(common.local_node().role, Role::Follower);
    assert_eq!(common.term(), Term::new(0));
    assert_eq!(common.log().head(), position(0, 0));
    assert!(common.next_event().is_none());
    assert!(!common.is_snapshot_installing());
    assert_eq!(common.poll_timeout().unwrap(), false);
}

#[test]
fn higher_term_other_message_makes_a_leader_stand_again() {
    let mut common = new_common();
    common.set_ballot(Ballot { term: Term::new(2), voted_for: node_id("node1") });
    common.transit_to_leader();
    drain_events(&mut common);
    let message = Message::RequestVoteReply { header: header("node2", 4, 0), voted: false };
    let result = common.handle_message(message);
    assert!(matches!(result, HandleMessageResult::Handled(Some(NextRole::Candidate))));
    assert_eq!(common.term(), Term::new(5));
    assert_eq!(common.local_node().role, Role::Candidate);
}

#[test]
fn higher_term_other_message_resets_a_follower_to_self_vote() {
    let mut common = new_common();
    common.set_ballot(Ballot { term: Term::new(2), voted_for: node_id("node2") });
    drain_events(&mut common);
    // The reply comes from the very node being followed, so it is not a
    // disruptor; with no definite leader at the new term, the node waits
    // as a Follower voting for itself.
    let message = Message::AppendEntriesReply {
        header: header("node2", 4, 0),
        log_tail: position(0, 0),
    };
    let result = common.handle_message(message);
    match result {
        HandleMessageResult::Handled(Some(NextRole::Follower { followee })) => {
            assert_eq!(followee, node_id("node1"));
        }
        other => panic!("unexpected result: {:?}", other),
    }
    assert_eq!(common.term(), Term::new(4));
    assert_eq!(common.local_node().ballot.voted_for, node_id("node1"));
    assert_eq!(common.local_node().role, Role::Follower);
}

#[test]
fn non_leader_accepts_a_sender_outside_the_configuration() {
    let mut common = new_common();
    common.set_ballot(Ballot { term: Term::new(1), voted_for: node_id("node1") });
    drain_events(&mut common);
    // A restart spanning a configuration change must be able to learn the
    // new membership, so only a Leader drops unknown senders.
    let message = Message::RequestVoteCall {
        header: header("stranger", 2, 0),
        log_tail: position(0, 0),
    };
    let result = common.handle_message(message);
    match result {
        HandleMessageResult::Handled(Some(NextRole::Follower { followee })) => {
            assert_eq!(followee, node_id("stranger"));
        }
        other => panic!("unexpected result: {:?}", other),
    }
    assert_eq!(common.term(), Term::new(2));
    assert_eq!(common.local_node().ballot.voted_for, node_id("stranger"));
}

#[test]
fn committed_range_superseded_by_an_install_is_treated_as_consumed() {
    let mut common = new_common();
    let suffix = LogSuffix {
        head: position(0, 0),
        entries: vec![
            LogEntry::Noop { term: Term::new(1) },
            LogEntry::Noop { term: Term::new(1) },
        ],
    };
    common.handle_log_appended(&suffix).unwrap();
    common.handle_log_committed(LogIndex::new(2)).unwrap();
    // The first tick starts reading the committed range; the read is not
    // ready yet.
    assert!(common.run_once().unwrap().is_none());
    assert_eq!(common.io().load_requests.len(), 1);
    // A snapshot install up to index 5 completes while the read is in
    // flight, moving the head past the range being read.
    common.install_snapshot(LogPrefix {
        tail: position(1, 5),
        config: cluster(),
        snapshot: Vec::new(),
    })
    .unwrap();
    common.io_mut().save_ready = true;
    common.io_mut().load_results.push(Log::Suffix(suffix));
    assert!(common.run_once().unwrap().is_none());
    // The stale range was surfaced but the consumed tail was not moved
    // backwards: the install's clamp stands.
    assert_eq!(common.log().head(), position(1, 5));
    assert_eq!(common.log().consumed_tail(), LogIndex::new(5));
    assert_eq!(common.log_committed_tail(), LogIndex::new(5));
    let events = drain_events(&mut common);
    assert!(events.iter().any(|e| matches!(e, Event::SnapshotInstalled { .. })));
    assert_eq!(
        events.iter().filter(|e| matches!(e, Event::Committed { .. })).count(),
        2
    );
}

#[test]
fn snapshot_loaded_behind_the_head_moves_nothing_back() {
    let mut common = new_common();
    common
        .handle_log_snapshot_loaded(LogPrefix {
            tail: position(1, 5),
            config: cluster(),
            snapshot: vec![1],
        })
        .unwrap();
    drain_events(&mut common);
    common
        .handle_log_snapshot_loaded(LogPrefix {
            tail: position(0, 2),
            config: cluster(),
            snapshot: vec![2],
        })
        .unwrap();
    assert_eq!(common.log().head(), position(1, 5));
    assert_eq!(common.log().consumed_tail(), LogIndex::new(5));
    let events = drain_events(&mut common);
    assert_eq!(events.len(), 1);
    assert!(matches!(
        &events[0],
        Event::SnapshotLoaded { new_head, .. } if *new_head == position(0, 2)
    ));
}

#[test]
fn higher_term_adoption_from_followed_leader_emits_one_term_changed() {
    let mut common = new_common();
    common.set_ballot(Ballot { term: Term::new(3), voted_for: node_id("node2") });
    drain_events(&mut common);
    // The higher-term append call comes from the very node already
    // followed: the vote target does not change, yet the ballot does, so
    // exactly one TermChanged with the adopted ballot must surface.
    let message = Message::AppendEntriesCall {
        header: header("node2", 5, 0),
        committed_log_tail: LogIndex::new(0),
        suffix: LogSuffix { head: position(0, 0), entries: Vec::new() },
    };
    let result = common.handle_message(message);
    assert!(matches!(result, HandleMessageResult::Handled(Some(_))));
    assert_eq!(common.term(), Term::new(5));
    assert_eq!(common.local_node().ballot.voted_for, node_id("node2"));
    assert_eq!(common.local_node().role, Role::Follower);
    let events = drain_events(&mut common);
    assert_eq!(events.len(), 1);
    match &events[0] {
        Event::TermChanged { new_ballot } => {
            assert_eq!(new_ballot.term, Term::new(5));
            assert_eq!(new_ballot.voted_for, node_id("node2"));
        }
        other => panic!("unexpected event: {:?}", other),
    }
}

#[test]
fn higher_term_reset_to_self_vote_emits_one_term_changed() {
    let mut common = new_common();
    common.set_ballot(Ballot { term: Term::new(3), voted_for: node_id("node1") });
    drain_events(&mut common);
    // Already self-voting; the reset keeps the vote target but adopts
    // the higher term, which is still a ballot change: one TermChanged.
    let message = Message::RequestVoteReply { header: header("node2", 4, 0), voted: false };
    let result = common.handle_message(message);
    assert!(matches!(result, HandleMessageResult::Handled(Some(_))));
    assert_eq!(common.term(), Term::new(4));
    let events = drain_events(&mut common);
    assert_eq!(events.len(), 1);
    assert!(matches!(
        &events[0],
        Event::TermChanged { new_ballot } if new_ballot.term == Term::new(4)
    ));
}
