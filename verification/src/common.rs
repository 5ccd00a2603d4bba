//! The state shared by every role of a replica, and the operations common
//! to all of them.

use std::collections::VecDeque;

use vstd::prelude::*;

use crate::cluster::ClusterConfig;
use crate::election::{ballot_eq, Ballot, Role, Term};
use crate::error::{Error, ErrorKind};
use crate::event::Event;
use crate::io::Io;
use crate::log::{
    spec_install, spec_loaded, spec_newer_or_equal, suffix_tail, suffix_tail_index, HistoryView,
    Log, LogEntry, LogHistory, LogIndex, LogPosition, LogPrefix, LogSuffix,
};
use crate::message::{Message, MessageHeader, SequenceNumber};
use crate::node::{Node, NodeId};

verus! {

broadcast use vstd::std_specs::vecdeque::group_vec_dequeue_axioms;

/// The role a node moves to next, together with whom it follows.
#[derive(Debug, Clone)]
pub enum NextRole {
    Leader,
    Candidate,
    Follower { followee: NodeId },
}

/// What the common message triage decided.
#[derive(Debug)]
pub enum HandleMessageResult {
    /// The message was fully consumed here; it may have caused a role
    /// change.
    Handled(Option<NextRole>),
    /// The message is for the current role's own handler.
    Unhandled(Message),
}

/// What a finished snapshot install leaves behind: the new head position
/// and the configuration the snapshot carries.
#[derive(Debug, Clone)]
pub struct SnapshotSummary {
    pub tail: LogPosition,
    pub config: ClusterConfig,
}

/// A single-flight snapshot-install task: the in-flight durable write and
/// the summary to apply when it completes.
pub struct InstallSnapshot<IO: Io> {
    future: IO::SaveLog,
    summary: SnapshotSummary,
}

/// The abstract state of a [`Common`]: everything its contracts speak of.
/// The I/O backend and the timeout handle are deliberately absent — the
/// core promises nothing about them.
pub struct CommonView {
    pub id: NodeId,
    pub role: Role,
    pub ballot: Ballot,
    pub history: HistoryView,
    pub events: Seq<Event>,
    pub unread: Option<Message>,
    pub seq_no: u64,
    pub install: Option<SnapshotSummary>,
    pub loading: bool,
    /// The index range `[start, end)` the in-flight committed-log read
    /// was asked for, tracked alongside the opaque read handle.
    pub loading_range: Option<(u64, u64)>,
}

/// The state common to the Leader, Candidate and Follower roles.
pub struct Common<IO: Io> {
    local_node: Node,
    history: LogHistory,
    timeout: IO::Timeout,
    events: VecDeque<Event>,
    io: IO,
    unread_message: Option<Message>,
    seq_no: SequenceNumber,
    load_committed: Option<IO::LoadLog>,
    load_committed_range: Ghost<Option<(u64, u64)>>,
    install_snapshot: Option<InstallSnapshot<IO>>,
}

impl<IO: Io> View for Common<IO> {
    type V = CommonView;

    closed spec fn view(&self) -> CommonView {
        CommonView {
            id: self.local_node.id,
            role: self.local_node.role,
            ballot: self.local_node.ballot,
            history: self.history@,
            events: self.events@,
            unread: self.unread_message,
            seq_no: self.seq_no.0,
            install: match self.install_snapshot {
                Some(task) => Some(task.summary),
                None => None,
            },
            loading: self.load_committed is Some,
            loading_range: self.load_committed_range@,
        }
    }
}

/// The next value of the outgoing sequence counter; it sticks at the top
/// of the machine range rather than wrap.
pub open spec fn next_seq(n: u64) -> u64 {
    if n < u64::MAX {
        (n + 1) as u64
    } else {
        n
    }
}

/// How [`Common::set_ballot`] changes the abstract state: a no-op on an
/// equal ballot, otherwise the new ballot plus exactly one `TermChanged`
/// event.
pub open spec fn spec_set_ballot(pre: CommonView, new_ballot: Ballot) -> CommonView {
    if ballot_eq(pre.ballot, new_ballot) {
        pre
    } else {
        CommonView {
            ballot: new_ballot,
            events: pre.events.push(Event::TermChanged { new_ballot }),
            ..pre
        }
    }
}

/// How a role change updates the abstract state: a no-op on an equal
/// role, otherwise the new role plus exactly one `RoleChanged` event.
pub open spec fn spec_set_role(pre: CommonView, new_role: Role) -> CommonView {
    if pre.role == new_role {
        pre
    } else {
        CommonView {
            role: new_role,
            events: pre.events.push(Event::RoleChanged { new_role }),
            ..pre
        }
    }
}

/// Becoming a Follower of `followee` at the given term: one ballot
/// update — so at most one `TermChanged`, carrying the full new ballot —
/// then the role update.
pub open spec fn spec_follow_at(pre: CommonView, term: Term, followee: NodeId) -> CommonView {
    spec_set_role(spec_set_ballot(pre, Ballot { term, voted_for: followee }), Role::Follower)
}

/// Self-nominating against the given term: one ballot update to the
/// successor term with a self-vote, then the role update.
pub open spec fn spec_nominate_at(pre: CommonView, term: Term) -> CommonView {
    spec_set_role(
        spec_set_ballot(pre, Ballot { term: Term((term.0 + 1) as u64), voted_for: pre.id }),
        Role::Candidate,
    )
}

/// How [`Common::transit_to_follower`] changes the abstract state.
pub open spec fn spec_transit_to_follower(pre: CommonView, followee: NodeId) -> CommonView {
    spec_follow_at(pre, pre.ballot.term, followee)
}

/// How [`Common::transit_to_candidate`] changes the abstract state.
pub open spec fn spec_transit_to_candidate(pre: CommonView) -> CommonView {
    spec_nominate_at(pre, pre.ballot.term)
}

/// How [`Common::transit_to_leader`] changes the abstract state.
pub open spec fn spec_transit_to_leader(pre: CommonView) -> CommonView {
    spec_set_role(pre, Role::Leader)
}

/// The decision and state change of the common message triage, case by
/// case: a Leader drops messages from unknown senders; a higher-term
/// message is ignored while a healthy leader is being followed, and
/// otherwise adopts the sender's term and decides the next role by the
/// message kind — the adopted term and the new vote go through the
/// ballot setter as one ballot, so each such path emits exactly one
/// `TermChanged` carrying the adopted ballot; a lower-term message is
/// answered with a negative vote; at equal terms, vote requests from a
/// node other than the followed one are refused, append calls from a
/// new leader are followed, and everything else is left to the current
/// role.
pub open spec fn spec_handle_message(
    pre: CommonView,
    m: Message,
    post: CommonView,
    r: HandleMessageResult,
) -> bool {
    let h = m.spec_header();
    if pre.role == Role::Leader && !pre.history.config.spec_is_known(h.sender@) {
        post == pre && r == HandleMessageResult::Handled(None::<NextRole>)
    } else if h.term.0 > pre.ballot.term.0 {
        if pre.ballot.voted_for@ != pre.id@ && pre.ballot.voted_for@ != h.sender@ {
            post == pre && r == HandleMessageResult::Handled(None::<NextRole>)
        } else {
            match m {
                Message::RequestVoteCall { header, log_tail } => {
                    if spec_newer_or_equal(log_tail, pre.history.tail) {
                        let stashed = CommonView { unread: Some(m), ..pre };
                        &&& post == spec_follow_at(stashed, h.term, header.sender)
                        &&& r == HandleMessageResult::Handled(
                            Some(NextRole::Follower { followee: header.sender }),
                        )
                    } else {
                        &&& post == spec_nominate_at(pre, h.term)
                        &&& r == HandleMessageResult::Handled(Some(NextRole::Candidate))
                    }
                }
                Message::AppendEntriesCall { header, .. } => {
                    let stashed = CommonView { unread: Some(m), ..pre };
                    &&& post == spec_follow_at(stashed, h.term, header.sender)
                    &&& r == HandleMessageResult::Handled(
                        Some(NextRole::Follower { followee: header.sender }),
                    )
                }
                _ => {
                    if pre.role == Role::Leader {
                        &&& post == spec_nominate_at(pre, h.term)
                        &&& r == HandleMessageResult::Handled(Some(NextRole::Candidate))
                    } else {
                        &&& post == spec_follow_at(pre, h.term, pre.id)
                        &&& r == HandleMessageResult::Handled(
                            Some(NextRole::Follower { followee: pre.id }),
                        )
                    }
                }
            }
        }
    } else if h.term.0 < pre.ballot.term.0 {
        post == pre && r == HandleMessageResult::Handled(None::<NextRole>)
    } else {
        let following = pre.ballot.voted_for@ == h.sender@;
        if (m matches Message::RequestVoteCall { .. }) && !following {
            post == pre && r == HandleMessageResult::Handled(None::<NextRole>)
        } else if (m matches Message::AppendEntriesCall { .. }) && !following {
            let stashed = CommonView { unread: Some(m), ..pre };
            &&& post == spec_transit_to_follower(stashed, h.sender)
            &&& r == HandleMessageResult::Handled(Some(NextRole::Follower { followee: h.sender }))
        } else {
            post == pre && r == HandleMessageResult::Unhandled(m)
        }
    }
}

/// How the retirement hook reacts to one committed entry. A `Retire`
/// entry of the current term makes a Leader broadcast the commit at once
/// (advancing the sequence counter), after which the named successor
/// re-enters as Candidate while everyone else follows the successor. Any
/// other entry, and a `Retire` of another term, is inert — as is one at
/// the very top of the term range, where no further candidacy is
/// possible.
pub open spec fn spec_retire(pre: CommonView, entry: LogEntry) -> (CommonView, Option<NextRole>) {
    match entry {
        LogEntry::Retire { term, successor } => {
            if pre.ballot.term.0 == term.0 && term.0 < u64::MAX {
                let mid = if pre.role == Role::Leader {
                    CommonView { seq_no: next_seq(pre.seq_no), ..pre }
                } else {
                    pre
                };
                if successor@ == pre.id@ {
                    (spec_transit_to_candidate(mid), Some(NextRole::Candidate))
                } else {
                    (
                        spec_transit_to_follower(mid, successor),
                        Some(NextRole::Follower { followee: successor }),
                    )
                }
            } else {
                (pre, None)
            }
        },
        _ => (pre, None),
    }
}

/// The state and pending next role after consuming committed entries in
/// order, starting at `index`: each entry runs through the retirement
/// hook and is then surfaced as a `Committed` event; the next role
/// reported at the end is the hook's answer for the last entry examined.
pub open spec fn spec_consume(
    pre: CommonView,
    acc: Option<NextRole>,
    index: int,
    entries: Seq<LogEntry>,
) -> (CommonView, Option<NextRole>)
    decreases entries.len(),
{
    if entries.len() == 0 {
        (pre, acc)
    } else {
        let stepped = spec_retire(pre, entries[0]);
        let with_event = CommonView {
            events: stepped.0.events.push(
                Event::Committed { index: LogIndex(index as u64), entry: entries[0] },
            ),
            ..stepped.0
        };
        spec_consume(with_event, stepped.1, index + 1, entries.drop_first())
    }
}

/// If a snapshot install that was in flight in `pre` is no longer in
/// flight in `cur`, its completion was observed: a `SnapshotInstalled`
/// event for its tail was enqueued and the head does not lie below that
/// tail.
pub open spec fn install_completion_applied(pre: CommonView, cur: CommonView) -> bool {
    pre.install matches Some(s) ==> (cur.install is None
        ==> cur.history.head.index.0 >= s.tail.index.0 && cur.events.contains(
        Event::SnapshotInstalled { new_head: s.tail },
    ))
}

/// Every `SnapshotInstalled` event appended between `pre` and `cur`
/// names a head the committed tail has already reached: observing the
/// event guarantees `committed_tail` at or above its position.
pub open spec fn snapshot_events_floored(pre: CommonView, cur: CommonView) -> bool {
    forall|i: int|
        pre.events.len() <= i < cur.events.len()
            ==> ((#[trigger] cur.events[i]) matches Event::SnapshotInstalled { new_head }
                ==> cur.history.committed_tail.0 >= new_head.index.0)
}

/// Setting the same ballot twice is the same as setting it once: the
/// second application changes nothing, so the pair emits exactly one
/// `TermChanged` event when the ballot differed, and none when it did
/// not.
pub proof fn lemma_set_ballot_idempotent(pre: CommonView, b: Ballot)
    ensures
        spec_set_ballot(spec_set_ballot(pre, b), b) == spec_set_ballot(pre, b),
{
}

/// A `RoleChanged` event is emitted exactly when the role actually
/// changes — one per change, none otherwise — and a ballot update never
/// produces one; symmetrically, a role update never touches the ballot
/// and appends no `TermChanged`.
pub proof fn lemma_role_change_events(pre: CommonView, b: Ballot, new_role: Role)
    ensures
        spec_set_role(pre, new_role).role == new_role,
        pre.role != new_role ==> spec_set_role(pre, new_role).events == pre.events.push(
            Event::RoleChanged { new_role },
        ),
        pre.role == new_role ==> spec_set_role(pre, new_role).events == pre.events,
        spec_set_role(pre, new_role).ballot == pre.ballot,
        spec_set_ballot(pre, b).role == pre.role,
        forall|i: int|
            pre.events.len() <= i < spec_set_ballot(pre, b).events.len()
                ==> (#[trigger] spec_set_ballot(pre, b).events[i]) matches Event::TermChanged {
                ..
            },
        forall|i: int|
            pre.events.len() <= i < spec_set_role(pre, new_role).events.len()
                ==> (#[trigger] spec_set_role(pre, new_role).events[i]) matches Event::RoleChanged {
                ..
            },
{
}

/// Once a snapshot install up to `new_head` is recorded, the committed
/// tail starts at or above the installed head; since no operation ever
/// lowers the committed tail, every later state whose committed tail
/// dominates the post-install one keeps that floor.
pub proof fn lemma_snapshot_install_committed_floor(
    h: HistoryView,
    new_head: LogPosition,
    config: ClusterConfig,
    later: HistoryView,
)
    requires
        later.committed_tail.0 >= spec_install(h, new_head, config).committed_tail.0,
    ensures
        later.committed_tail.0 >= new_head.index.0,
{
}

/// Every sequence is a prefix of itself.
proof fn lemma_prefix_refl<T>(a: Seq<T>)
    ensures
        a.is_prefix_of(a),
{
    assert(a =~= a.subrange(0, a.len() as int));
}

/// A sequence stays a prefix of anything a further push extends.
proof fn lemma_prefix_push<T>(a: Seq<T>, b: Seq<T>, x: T)
    requires
        a.is_prefix_of(b),
    ensures
        a.is_prefix_of(b.push(x)),
{
    assert(a =~= b.push(x).subrange(0, a.len() as int));
}

/// Being a prefix is transitive.
proof fn lemma_prefix_trans<T>(a: Seq<T>, b: Seq<T>, c: Seq<T>)
    requires
        a.is_prefix_of(b),
        b.is_prefix_of(c),
    ensures
        a.is_prefix_of(c),
{
    assert(a =~= c.subrange(0, a.len() as int));
}

/// Extending a sequence keeps what it contains, and keeps every element
/// of the shorter sequence in place.
proof fn lemma_prefix_keeps<T>(a: Seq<T>, b: Seq<T>)
    requires
        a.is_prefix_of(b),
    ensures
        forall|i: int| 0 <= i < a.len() ==> a[i] == b[i],
        forall|x: T| a.contains(x) ==> b.contains(x),
{
    assert forall|i: int| 0 <= i < a.len() implies a[i] == b[i] by {
        assert(a[i] == b.subrange(0, a.len() as int)[i]);
    }
    assert forall|x: T| a.contains(x) implies b.contains(x) by {
        let i = choose|i: int| 0 <= i < a.len() && a[i] == x;
        assert(b[i] == x);
    }
}

/// Consuming committed entries touches neither the log history nor the
/// deferred message nor the single-flight slots; it only appends events,
/// and the term never falls.
proof fn lemma_consume_frame(
    pre: CommonView,
    acc: Option<NextRole>,
    index: int,
    entries: Seq<LogEntry>,
)
    ensures
        ({
            let post = spec_consume(pre, acc, index, entries).0;
            &&& post.id == pre.id
            &&& post.history == pre.history
            &&& post.unread == pre.unread
            &&& post.install == pre.install
            &&& post.loading == pre.loading
            &&& post.ballot.term.0 >= pre.ballot.term.0
            &&& pre.events.is_prefix_of(post.events)
            &&& forall|i: int|
                pre.events.len() <= i < post.events.len()
                    ==> !((#[trigger] post.events[i]) matches Event::SnapshotInstalled { .. })
        }),
    decreases entries.len(),
{
    if entries.len() == 0 {
        assert(pre.events =~= pre.events.subrange(0, pre.events.len() as int));
    } else {
        let stepped = spec_retire(pre, entries[0]);
        let with_event = CommonView {
            events: stepped.0.events.push(
                Event::Committed { index: LogIndex(index as u64), entry: entries[0] },
            ),
            ..stepped.0
        };
        assert(pre.events.is_prefix_of(stepped.0.events)) by {
            assert(pre.events =~= stepped.0.events.subrange(0, pre.events.len() as int));
        }
        lemma_prefix_push(
            pre.events,
            stepped.0.events,
            Event::Committed { index: LogIndex(index as u64), entry: entries[0] },
        );
        lemma_consume_frame(with_event, stepped.1, index + 1, entries.drop_first());
        let post = spec_consume(with_event, stepped.1, index + 1, entries.drop_first()).0;
        lemma_prefix_trans(pre.events, with_event.events, post.events);
        lemma_prefix_keeps(with_event.events, post.events);
        assert forall|i: int|
            pre.events.len() <= i < post.events.len() implies !((#[trigger] post.events[i])
            matches Event::SnapshotInstalled { .. }) by {
            if i < with_event.events.len() {
                // The retirement hook appends only ballot and role events,
                // and the step itself appends the commit event.
                assert(post.events[i] == with_event.events[i]);
            }
        }
    }
}

impl<IO: Io> Common<IO> {
    /// The invariant that holds after every public operation: the four
    /// log positions stand in order, and a committed-log read is in
    /// flight exactly when a range was asked for — a non-empty one,
    /// ending at or below the committed tail. A read is only ever
    /// started over the unconsumed committed range, when no read is in
    /// flight.
    pub open spec fn wf(&self) -> bool {
        &&& self@.history.inv()
        &&& self@.loading <==> self@.loading_range is Some
        &&& self@.loading_range matches Some(p) ==> p.0 < p.1 && p.1
            <= self@.history.committed_tail.0
    }

    /// The I/O backend, for reading.
    pub closed spec fn spec_io(&self) -> IO {
        self.io
    }

    /// Builds the common state for `node_id`: a Follower at term zero
    /// with an empty log, an armed Follower timeout, and no events yet.
    pub fn new(node_id: NodeId, io: IO, config: ClusterConfig) -> (c: Common<IO>)
        ensures
            c@.id == node_id,
            c@.role == Role::Follower,
            c@.ballot.term.0 == 0,
            c@.ballot.voted_for@ == Seq::<char>::empty(),
            c@.history == (HistoryView {
                head: LogPosition { prev_term: Term(0), index: LogIndex(0) },
                consumed_tail: LogIndex(0),
                committed_tail: LogIndex(0),
                tail: LogPosition { prev_term: Term(0), index: LogIndex(0) },
                config: config,
            }),
            c@.events == Seq::<Event>::empty(),
            c@.unread is None,
            c@.seq_no == 0,
            c@.install is None,
            !c@.loading,
            c@.loading_range is None,
            c.wf(),
    {
        let mut io = io;
        let timeout = io.create_timeout(Role::Follower);
        Common {
            local_node: Node::new(node_id),
            io,
            history: LogHistory::new(config),
            unread_message: None,
            seq_no: SequenceNumber::new(0),
            timeout,
            events: VecDeque::new(),
            load_committed: None,
            load_committed_range: Ghost(None),
            install_snapshot: None,
        }
    }

    /// The current cluster configuration.
    pub fn config(&self) -> (c: &ClusterConfig)
        ensures
            c == self@.history.config,
    {
        self.history.config()
    }

    /// The history of the local log.
    pub fn log(&self) -> (h: &LogHistory)
        ensures
            h@ == self@.history,
    {
        &self.history
    }

    /// The end of the committed region of the local log.
    pub fn log_committed_tail(&self) -> (i: LogIndex)
        ensures
            i == self@.history.committed_tail,
    {
        self.history.committed_tail()
    }

    /// The current term.
    pub fn term(&self) -> (t: Term)
        ensures
            t == self@.ballot.term,
    {
        self.local_node.ballot.term
    }

    /// The local node: identity, role, and ballot.
    pub fn local_node(&self) -> (n: &Node)
        ensures
            n.id == self@.id,
            n.role == self@.role,
            n.ballot == self@.ballot,
    {
        &self.local_node
    }

    /// Updates the ballot. A no-op when the new ballot equals the old
    /// one; otherwise exactly one `TermChanged` event is enqueued.
    pub fn set_ballot(&mut self, new_ballot: Ballot)
        ensures
            final(self)@ == spec_set_ballot(old(self)@, new_ballot),
            final(self)@.ballot.term.0 == new_ballot.term.0,
            old(self)@.events.is_prefix_of(final(self)@.events),
    {
        if !(self.local_node.ballot == new_ballot) {
            self.local_node.ballot = new_ballot.clone();
            self.events.push_back(Event::TermChanged { new_ballot });
        }
    }

    /// Updates the role. A no-op when unchanged; otherwise exactly one
    /// `RoleChanged` event is enqueued.
    fn set_role(&mut self, new_role: Role)
        ensures
            final(self)@ == spec_set_role(old(self)@, new_role),
    {
        if !(self.local_node.role == new_role) {
            self.local_node.role = new_role;
            self.events.push_back(Event::RoleChanged { new_role });
        }
    }

    /// Moves to the Leader role. The ballot is left alone: term and vote
    /// were already settled when the election was won.
    pub fn transit_to_leader(&mut self) -> (r: NextRole)
        ensures
            final(self)@ == spec_transit_to_leader(old(self)@),
            r == NextRole::Leader,
            final(self)@.ballot.term.0 == old(self)@.ballot.term.0,
            old(self)@.events.is_prefix_of(final(self)@.events),
    {
        self.set_role(Role::Leader);
        NextRole::Leader
    }

    /// Self-nominates: the term advances by one, the vote goes to the
    /// local node, and the role becomes Candidate.
    pub fn transit_to_candidate(&mut self) -> (r: NextRole)
        requires
            old(self)@.ballot.term.0 < u64::MAX,
        ensures
            final(self)@ == spec_transit_to_candidate(old(self)@),
            r == NextRole::Candidate,
            final(self)@.ballot.term.0 == old(self)@.ballot.term.0 + 1,
            old(self)@.events.is_prefix_of(final(self)@.events),
    {
        let new_ballot = Ballot {
            term: Term(self.local_node.ballot.term.as_u64() + 1),
            voted_for: self.local_node.id.clone(),
        };
        self.set_ballot(new_ballot);
        self.set_role(Role::Candidate);
        NextRole::Candidate
    }

    /// Follows `followee`: the term is kept, the vote goes to the
    /// followee, and the role becomes Follower.
    pub fn transit_to_follower(&mut self, followee: NodeId) -> (r: NextRole)
        ensures
            final(self)@ == spec_transit_to_follower(old(self)@, followee),
            r == (NextRole::Follower { followee }),
            final(self)@.ballot.term.0 == old(self)@.ballot.term.0,
            old(self)@.events.is_prefix_of(final(self)@.events),
    {
        let returned = followee.clone();
        let new_ballot = Ballot { term: self.local_node.ballot.term, voted_for: followee };
        self.set_ballot(new_ballot);
        self.set_role(Role::Follower);
        NextRole::Follower { followee: returned }
    }

    /// Follows `followee` at the adopted `term`: the full new ballot goes
    /// through the ballot setter in one step, so a term adoption and a
    /// vote change together emit exactly one `TermChanged`.
    fn follow_at(&mut self, term: Term, followee: NodeId) -> (r: NextRole)
        ensures
            final(self)@ == spec_follow_at(old(self)@, term, followee),
            r == (NextRole::Follower { followee }),
            old(self)@.events.is_prefix_of(final(self)@.events),
    {
        let returned = followee.clone();
        self.set_ballot(Ballot { term, voted_for: followee });
        self.set_role(Role::Follower);
        NextRole::Follower { followee: returned }
    }

    /// Self-nominates against the adopted `term`: one ballot update to
    /// the successor term with a self-vote, then the role update.
    fn nominate_at(&mut self, term: Term) -> (r: NextRole)
        requires
            term.0 < u64::MAX,
        ensures
            final(self)@ == spec_nominate_at(old(self)@, term),
            r == NextRole::Candidate,
            old(self)@.events.is_prefix_of(final(self)@.events),
    {
        let new_ballot = Ballot {
            term: Term(term.0 + 1),
            voted_for: self.local_node.id.clone(),
        };
        self.set_ballot(new_ballot);
        self.set_role(Role::Candidate);
        NextRole::Candidate
    }

    /// The sequence number the next outgoing call will use. Reading it
    /// does not advance it.
    pub fn next_seq_no(&self) -> (s: SequenceNumber)
        ensures
            s.0 == self@.seq_no,
    {
        self.seq_no
    }

    /// The I/O backend, for reading.
    pub fn io(&self) -> (r: &IO)
        ensures
            *r == self.spec_io(),
    {
        &self.io
    }

    /// The I/O backend, for writing. Mutating it outside the protocol can
    /// corrupt the data the invariants defend; it is the caller's burden
    /// to keep every use consistent with the log history.
    pub fn io_mut(&mut self) -> (r: &mut IO)
        ensures
            *r == old(self).spec_io(),
            final(self)@ == old(self)@,
            final(self).spec_io() == *final(r),
    {
        &mut self.io
    }

    /// Starts reading the given range of the local log.
    pub fn load_log(&mut self, start: LogIndex, end: Option<LogIndex>) -> (task: IO::LoadLog)
        ensures
            final(self)@ == old(self)@,
    {
        self.io.load_log(start, end)
    }

    /// Starts appending `suffix` durably to the local log.
    pub fn save_log_suffix(&mut self, suffix: &LogSuffix) -> (task: IO::SaveLog)
        ensures
            final(self)@ == old(self)@,
    {
        self.io.save_log_suffix(suffix)
    }

    /// Starts persisting the current ballot.
    pub fn save_ballot(&mut self) -> (task: IO::SaveBallot)
        ensures
            final(self)@ == old(self)@,
    {
        let ballot = self.local_node.ballot.clone();
        self.io.save_ballot(ballot)
    }

    /// Starts restoring the persisted ballot.
    pub fn load_ballot(&mut self) -> (task: IO::LoadBallot)
        ensures
            final(self)@ == old(self)@,
    {
        self.io.load_ballot()
    }

    /// Arms the timeout for the given role, dropping — and thereby
    /// cancelling — the previous deadline.
    pub fn set_timeout(&mut self, role: Role)
        ensures
            final(self)@ == old(self)@,
    {
        self.timeout = self.io.create_timeout(role);
    }

    /// Whether the armed deadline has passed.
    pub fn poll_timeout(&mut self) -> (r: Result<bool, Error>)
        ensures
            final(self)@ == old(self)@,
    {
        self.io.poll_timeout(&mut self.timeout)
    }

    /// The next host-visible event, in the order the core produced them.
    pub fn next_event(&mut self) -> (e: Option<Event>)
        ensures
            old(self)@.events.len() == 0 ==> e is None && final(self)@ == old(self)@,
            old(self)@.events.len() > 0 ==> ({
                &&& e == Some(old(self)@.events[0])
                &&& final(self)@ == (CommonView {
                    events: old(self)@.events.drop_first(),
                    ..old(self)@
                })
            }),
    {
        self.events.pop_front()
    }

    /// The next inbound message: a message deferred by the triage is
    /// handed out first, before the transport is touched.
    pub fn try_recv_message(&mut self) -> (r: Result<Option<Message>, Error>)
        ensures
            final(self)@ == (CommonView { unread: None, ..old(self)@ }),
            old(self)@.unread matches Some(m) ==> r == Ok::<Option<Message>, Error>(Some(m)),
    {
        if self.unread_message.is_some() {
            let message = self.unread_message.take();
            Ok(message)
        } else {
            self.io.try_recv_message()
        }
    }

    /// The header for the next outgoing call: the local node as sender,
    /// the current term, and the next sequence number, which this call —
    /// and only this call — advances.
    pub fn rpc_caller(&mut self) -> (h: MessageHeader)
        ensures
            final(self)@ == (CommonView { seq_no: next_seq(old(self)@.seq_no), ..old(self)@ }),
            h.sender == old(self)@.id,
            h.term == old(self)@.ballot.term,
            h.seq_no.0 == old(self)@.seq_no,
    {
        let h = MessageHeader {
            sender: self.local_node.id.clone(),
            term: self.local_node.ballot.term,
            seq_no: self.seq_no,
        };
        if self.seq_no.0 < u64::MAX {
            self.seq_no = SequenceNumber(self.seq_no.0 + 1);
        }
        h
    }

    /// The header for a reply to `caller`: the local node as sender, the
    /// current term, and the caller's own sequence number.
    pub fn rpc_callee(&self, caller: &MessageHeader) -> (h: MessageHeader)
        ensures
            h.sender == self@.id,
            h.term == self@.ballot.term,
            h.seq_no == caller.seq_no,
    {
        MessageHeader {
            sender: self.local_node.id.clone(),
            term: self.local_node.ballot.term,
            seq_no: caller.seq_no,
        }
    }

    /// Replies to `caller` with a vote, granted or not.
    pub fn reply_request_vote(&mut self, caller: &MessageHeader, voted: bool)
        ensures
            final(self)@ == old(self)@,
    {
        let header = self.rpc_callee(caller);
        let destination = caller.sender.clone();
        let message = Message::RequestVoteReply { header, voted };
        self.io.send_message(&destination, message);
    }

    /// Sends `suffix` as an append call to every other member of the
    /// current configuration, under one fresh sequence number.
    pub fn broadcast_append_entries(&mut self, suffix: LogSuffix)
        ensures
            final(self)@ == (CommonView { seq_no: next_seq(old(self)@.seq_no), ..old(self)@ }),
    {
        let ghost mid = CommonView { seq_no: next_seq(old(self)@.seq_no), ..old(self)@ };
        let header = self.rpc_caller();
        let committed = self.history.committed_tail();
        let n = self.history.config().members().len();
        let mut i: usize = 0;
        while i < n
            invariant
                self@ == mid,
                n == self@.history.config.members@.len(),
            decreases n - i,
        {
            let destination = self.history.config().members()[i].clone();
            if !(destination == self.local_node.id) {
                let message = Message::AppendEntriesCall {
                    header: header.clone(),
                    committed_log_tail: committed,
                    suffix: suffix.clone(),
                };
                self.io.send_message(&destination, message);
            }
            i = i + 1;
        }
    }

    /// Records an append of `suffix` to the local log; the tail advances
    /// to the suffix's tail.
    pub fn handle_log_appended(&mut self, suffix: &LogSuffix) -> (r: Result<(), Error>)
        requires
            old(self).wf(),
        ensures
            final(self).wf(),
            final(self)@ == (CommonView { history: final(self)@.history, ..old(self)@ }),
            (suffix.head.index.0 > old(self)@.history.tail.index.0
                || suffix_tail_index(*suffix) < old(self)@.history.committed_tail.0
                || suffix_tail_index(*suffix) > u64::MAX) ==> ({
                &&& r matches Err(e) && e.kind == ErrorKind::InconsistentState
                &&& final(self)@ == old(self)@
            }),
            (suffix.head.index.0 <= old(self)@.history.tail.index.0
                && old(self)@.history.committed_tail.0 <= suffix_tail_index(*suffix) <= u64::MAX)
                ==> ({
                &&& r matches Ok(u) && u == ()
                &&& final(self)@.history == (HistoryView {
                    tail: suffix_tail(*suffix),
                    ..old(self)@.history
                })
            }),
    {
        self.history.record_appended(suffix)
    }

    /// Records that the log is committed up to `new_tail`.
    pub fn handle_log_committed(&mut self, new_tail: LogIndex) -> (r: Result<(), Error>)
        requires
            old(self).wf(),
        ensures
            final(self).wf(),
            final(self)@ == (CommonView { history: final(self)@.history, ..old(self)@ }),
            final(self)@.history.committed_tail.0 >= old(self)@.history.committed_tail.0,
            (new_tail.0 < old(self)@.history.committed_tail.0
                || new_tail.0 > old(self)@.history.tail.index.0) ==> ({
                &&& r matches Err(e) && e.kind == ErrorKind::InconsistentState
                &&& final(self)@ == old(self)@
            }),
            (old(self)@.history.committed_tail.0 <= new_tail.0
                <= old(self)@.history.tail.index.0) ==> ({
                &&& r matches Ok(u) && u == ()
                &&& final(self)@.history == (HistoryView {
                    committed_tail: new_tail,
                    ..old(self)@.history
                })
            }),
    {
        self.history.record_committed(new_tail)
    }

    /// Records a truncation of the uncommitted suffix back to `new_tail`.
    pub fn handle_log_rollbacked(&mut self, new_tail: LogPosition) -> (r: Result<(), Error>)
        requires
            old(self).wf(),
        ensures
            final(self).wf(),
            final(self)@ == (CommonView { history: final(self)@.history, ..old(self)@ }),
            (new_tail.index.0 < old(self)@.history.committed_tail.0
                || new_tail.index.0 > old(self)@.history.tail.index.0) ==> ({
                &&& r matches Err(e) && e.kind == ErrorKind::InconsistentState
                &&& final(self)@ == old(self)@
            }),
            (old(self)@.history.committed_tail.0 <= new_tail.index.0
                <= old(self)@.history.tail.index.0) ==> ({
                &&& r matches Ok(u) && u == ()
                &&& final(self)@.history == (HistoryView { tail: new_tail, ..old(self)@.history })
            }),
    {
        self.history.record_rollback(new_tail)
    }

    /// Records that a snapshot up to `new_head` is durably installed and
    /// that `config` is now the active configuration.
    pub fn handle_log_snapshot_installed(&mut self, new_head: LogPosition, config: ClusterConfig)
        -> (r: Result<(), Error>)
        requires
            old(self).wf(),
        ensures
            final(self).wf(),
            final(self)@ == (CommonView { history: final(self)@.history, ..old(self)@ }),
            final(self)@.history.committed_tail.0 >= old(self)@.history.committed_tail.0,
            new_head.index.0 < old(self)@.history.head.index.0 ==> ({
                &&& r matches Err(e) && e.kind == ErrorKind::InconsistentState
                &&& final(self)@ == old(self)@
            }),
            new_head.index.0 >= old(self)@.history.head.index.0 ==> ({
                &&& r matches Ok(u) && u == ()
                &&& final(self)@.history == spec_install(old(self)@.history, new_head, config)
            }),
    {
        self.history.record_snapshot_installed(new_head, config)
    }

    /// Records that a snapshot was loaded from the log and hands it to
    /// the host as a `SnapshotLoaded` event.
    ///
    /// A load may overtake the notification of an install that already
    /// completed physically; when the loaded snapshot reaches past the
    /// committed tail, the install is therefore recorded first, so the
    /// position order is preserved. This never fails.
    pub fn handle_log_snapshot_loaded(&mut self, prefix: LogPrefix) -> (r: Result<(), Error>)
        requires
            old(self).wf(),
        ensures
            final(self).wf(),
            r matches Ok(u) && u == (),
            ({
                let h0 = old(self)@.history;
                let h1 = if h0.committed_tail.0 < prefix.tail.index.0 {
                    spec_install(h0, prefix.tail, prefix.config)
                } else {
                    h0
                };
                final(self)@ == (CommonView {
                    history: spec_loaded(h1, prefix.tail),
                    events: old(self)@.events.push(
                        Event::SnapshotLoaded { new_head: prefix.tail, snapshot: prefix.snapshot },
                    ),
                    ..old(self)@
                })
            }),
    {
        let LogPrefix { tail, config, snapshot } = prefix;
        if self.history.committed_tail().0 < tail.index.0 {
            if let Err(e) = self.history.record_snapshot_installed(tail, config) {
                return Err(e);
            }
        }
        if let Err(e) = self.history.record_snapshot_loaded(tail) {
            return Err(e);
        }
        self.events.push_back(Event::SnapshotLoaded { new_head: tail, snapshot });
        Ok(())
    }

    /// Whether a snapshot install is in flight. While it is, no further
    /// install may start.
    pub fn is_snapshot_installing(&self) -> (r: bool)
        ensures
            r == (self@.install is Some),
    {
        self.install_snapshot.is_some()
    }

    /// Whether a snapshot install is in flight *and* the local log has
    /// not yet caught up to the snapshot's tail. While this holds, the
    /// node should start no other long work; once the local tail reaches
    /// the snapshot's tail the node may proceed even though the install
    /// is still running.
    pub fn is_focusing_on_installing_snapshot(&self) -> (r: bool)
        ensures
            r == match self@.install {
                Some(s) => self@.history.tail.index.0 < s.tail.index.0,
                None => false,
            },
    {
        if let Some(task) = &self.install_snapshot {
            return self.history.tail().index.0 < task.summary.tail.index.0;
        }
        false
    }

    /// Starts the single-flight durable install of `snapshot`. Fails with
    /// `InconsistentState` when the snapshot ends below the current head,
    /// and with `Busy` when an install is already in flight; otherwise
    /// the install slot is filled and the write begins.
    pub fn install_snapshot(&mut self, snapshot: LogPrefix) -> (r: Result<(), Error>)
        requires
            old(self).wf(),
        ensures
            final(self).wf(),
            old(self)@.history.head.index.0 > snapshot.tail.index.0 ==> ({
                &&& r matches Err(e) && e.kind == ErrorKind::InconsistentState
                &&& final(self)@ == old(self)@
            }),
            (old(self)@.history.head.index.0 <= snapshot.tail.index.0
                && old(self)@.install is Some) ==> ({
                &&& r matches Err(e) && e.kind == ErrorKind::Busy
                &&& final(self)@ == old(self)@
            }),
            (old(self)@.history.head.index.0 <= snapshot.tail.index.0
                && old(self)@.install is None) ==> ({
                &&& r matches Ok(u) && u == ()
                &&& final(self)@ == (CommonView {
                    install: Some(
                        SnapshotSummary { tail: snapshot.tail, config: snapshot.config },
                    ),
                    ..old(self)@
                })
            }),
    {
        if self.history.head().index.0 > snapshot.tail.index.0 {
            return Err(Error { kind: ErrorKind::InconsistentState });
        }
        if self.install_snapshot.is_some() {
            return Err(Error { kind: ErrorKind::Busy });
        }
        let task = InstallSnapshot::new(self, snapshot);
        self.install_snapshot = Some(task);
        Ok(())
    }

    /// Reacts to one committed entry, as [`spec_retire`] states: a
    /// `Retire` entry of the current term makes a Leader broadcast the
    /// commit at once, then hands the cluster to the named successor.
    fn handle_retirement(&mut self, entry: &LogEntry) -> (r: Option<NextRole>)
        requires
            old(self).wf(),
        ensures
            final(self).wf(),
            final(self)@ == spec_retire(old(self)@, *entry).0,
            r == spec_retire(old(self)@, *entry).1,
    {
        if let LogEntry::Retire { term, successor } = entry {
            if self.local_node.ballot.term.0 != term.0 || term.0 == u64::MAX {
                return None;
            }
            if self.local_node.role == Role::Leader {
                // Notify the members of this commit immediately.
                let head = self.history.tail();
                let entries: Vec<LogEntry> = Vec::new();
                let slice = LogSuffix { head, entries };
                self.broadcast_append_entries(slice);
            }
            if self.local_node.id == *successor {
                // Passing through Candidate re-runs the usual
                // ballot-save path; a quorum has already committed the
                // retirement, so this candidacy should win at once.
                Some(self.transit_to_candidate())
            } else {
                Some(self.transit_to_follower(successor.clone()))
            }
        } else {
            None
        }
    }

    /// Consumes a loaded suffix of committed entries: each entry runs
    /// through the retirement hook and is surfaced as a `Committed`
    /// event, in ascending index order; afterwards the consumed tail
    /// advances to the suffix's tail — unless a snapshot superseded the
    /// range mid-flight and already moved the head past it.
    fn handle_committed(&mut self, suffix: LogSuffix) -> (r: Result<Option<NextRole>, Error>)
        requires
            old(self).wf(),
        ensures
            final(self).wf(),
            final(self)@.history.head == old(self)@.history.head,
            final(self)@.history.committed_tail == old(self)@.history.committed_tail,
            final(self)@.history.tail == old(self)@.history.tail,
            final(self)@.history.config == old(self)@.history.config,
            final(self)@.history.consumed_tail.0 >= old(self)@.history.consumed_tail.0,
            final(self)@.ballot.term.0 >= old(self)@.ballot.term.0,
            final(self)@.unread == old(self)@.unread,
            final(self)@.install == old(self)@.install,
            final(self)@.loading == old(self)@.loading,
            old(self)@.events.is_prefix_of(final(self)@.events),
            suffix_tail_index(suffix) > u64::MAX ==> ({
                &&& r matches Err(e) && e.kind == ErrorKind::InconsistentState
                &&& final(self)@ == old(self)@
            }),
            suffix_tail_index(suffix) <= u64::MAX ==> ({
                let consumed = spec_consume(
                    old(self)@,
                    None::<NextRole>,
                    suffix.head.index.0 as int,
                    suffix.entries@,
                );
                let t = suffix_tail_index(suffix);
                if t >= old(self)@.history.head.index.0 {
                    if old(self)@.history.consumed_tail.0 <= t
                        <= old(self)@.history.committed_tail.0 {
                        &&& r matches Ok(n) && n == consumed.1
                        &&& final(self)@ == (CommonView {
                            history: HistoryView {
                                consumed_tail: LogIndex(t as u64),
                                ..old(self)@.history
                            },
                            ..consumed.0
                        })
                    } else {
                        &&& r matches Err(e) && e.kind == ErrorKind::InconsistentState
                        &&& final(self)@ == consumed.0
                    }
                } else {
                    &&& r matches Ok(n) && n == consumed.1
                    &&& final(self)@ == consumed.0
                }
            }),
    {
        let mut suffix = suffix;
        let len: u64 = suffix.entries.len() as u64;
        if suffix.head.index.0 > u64::MAX - len {
            return Err(Error { kind: ErrorKind::InconsistentState });
        }
        let new_tail = suffix.tail();
        let ghost target = spec_consume(
            old(self)@,
            None::<NextRole>,
            suffix.head.index.0 as int,
            suffix.entries@,
        );
        let mut next_state: Option<NextRole> = None;
        let mut index: u64 = suffix.head.index.0;
        while suffix.entries.len() > 0
            invariant
                self.wf(),
                index + suffix.entries@.len() == new_tail.index.0,
                spec_consume(self@, next_state, index as int, suffix.entries@) == target,
                self@.history == old(self)@.history,
                self@.ballot.term.0 >= old(self)@.ballot.term.0,
                self@.unread == old(self)@.unread,
                self@.install == old(self)@.install,
                self@.loading == old(self)@.loading,
                old(self)@.events.is_prefix_of(self@.events),
            decreases suffix.entries@.len(),
        {
            let ghost entries_before = suffix.entries@;
            let ghost state_before = self@;
            let entry = suffix.entries.remove(0);
            proof {
                assert(entries_before.remove(0) =~= entries_before.drop_first());
            }
            next_state = self.handle_retirement(&entry);
            self.events.push_back(Event::Committed { index: LogIndex(index), entry });
            proof {
                lemma_consume_frame(state_before, next_state, index as int, entries_before);
                assert(state_before.events.is_prefix_of(self@.events)) by {
                    assert(state_before.events =~= self@.events.subrange(
                        0,
                        state_before.events.len() as int,
                    ));
                }
                lemma_prefix_trans(old(self)@.events, state_before.events, self@.events);
            }
            index = index + 1;
        }
        proof {
            lemma_consume_frame(old(self)@, None::<NextRole>, new_tail.index.0 as int, Seq::empty());
        }
        if new_tail.index.0 >= self.history.head().index.0 {
            if let Err(e) = self.history.record_consumed(new_tail.index) {
                return Err(e);
            }
        }
        Ok(next_state)
    }

    /// One unit of background work: polls the snapshot-install and
    /// committed-load tasks, applies whatever completed, and keeps a
    /// committed-load in flight while there are committed entries the
    /// host has not seen. Returns the next role a consumed retirement
    /// entry demands, if any; the caller must adopt it before the next
    /// call.
    pub fn run_once(&mut self) -> (r: Result<Option<NextRole>, Error>)
        requires
            old(self).wf(),
        ensures
            final(self).wf(),
            final(self)@.ballot.term.0 >= old(self)@.ballot.term.0,
            final(self)@.history.committed_tail.0 >= old(self)@.history.committed_tail.0,
            final(self)@.history.consumed_tail.0 >= old(self)@.history.consumed_tail.0,
            final(self)@.history.head.index.0 >= old(self)@.history.head.index.0,
            final(self)@.unread == old(self)@.unread,
            old(self)@.events.is_prefix_of(final(self)@.events),
            r matches Ok(n) ==> (final(self)@.loading
                || final(self)@.history.consumed_tail.0
                    == final(self)@.history.committed_tail.0),
            // With nothing in flight and nothing left to consume, the tick
            // makes no backend call and changes nothing.
            (old(self)@.install is None && !old(self)@.loading
                && old(self)@.history.consumed_tail.0
                    == old(self)@.history.committed_tail.0) ==> ({
                &&& r matches Ok(n) && n is None
                &&& final(self)@ == old(self)@
            }),
            // An install slot emptied by this tick was completed: its
            // event was enqueued and its summary absorbed by the history.
            install_completion_applied(old(self)@, final(self)@),
            final(self)@.install == old(self)@.install || final(self)@.install is None,
            // Observing a `SnapshotInstalled` event guarantees the
            // committed tail has reached its head, from then on.
            snapshot_events_floored(old(self)@, final(self)@),
    {
        let mut next_state: Option<NextRole> = None;
        proof {
            lemma_prefix_refl(old(self)@.events);
        }
        loop
            invariant
                self.wf(),
                self@.ballot.term.0 >= old(self)@.ballot.term.0,
                self@.history.committed_tail.0 >= old(self)@.history.committed_tail.0,
                self@.history.consumed_tail.0 >= old(self)@.history.consumed_tail.0,
                self@.history.head.index.0 >= old(self)@.history.head.index.0,
                self@.unread == old(self)@.unread,
                old(self)@.events.is_prefix_of(self@.events),
                (old(self)@.install is None && !old(self)@.loading
                    && old(self)@.history.consumed_tail.0
                        == old(self)@.history.committed_tail.0)
                    ==> (self@ == old(self)@ && next_state is None),
                install_completion_applied(old(self)@, self@),
                self@.install == old(self)@.install || self@.install is None,
                snapshot_events_floored(old(self)@, self@),
            ensures
                self@.loading || self@.history.consumed_tail.0
                    == self@.history.committed_tail.0,
            decreases
                    self@.history.committed_tail.0 - self@.history.consumed_tail.0,
                    if self@.loading {
                        0int
                    } else {
                        1int
                    },
        {
            let ghost turn_start = self@;
            let consumed_at_top = self.history.consumed_tail();
            let mut load_applied: bool = false;
            // Apply a finished snapshot install.
            if self.install_snapshot.is_some() {
                let mut task = self.install_snapshot.take().unwrap();
                let polled = self.io.poll_save_log(&mut task.future);
                match polled {
                    Ok(true) => {
                        let InstallSnapshot { future: _, summary } = task;
                        self.events.push_back(
                            Event::SnapshotInstalled { new_head: summary.tail },
                        );
                        proof {
                            lemma_prefix_push(
                                old(self)@.events,
                                turn_start.events,
                                Event::SnapshotInstalled { new_head: summary.tail },
                            );
                            assert(self@.events.contains(
                                Event::SnapshotInstalled { new_head: summary.tail },
                            )) by {
                                assert(self@.events[turn_start.events.len() as int]
                                    == Event::SnapshotInstalled { new_head: summary.tail });
                            }
                        }
                        let applied = self.history.record_snapshot_installed(
                            summary.tail,
                            summary.config,
                        );
                        proof {
                            // Whether or not the record went through, the
                            // committed tail has reached the event's head:
                            // the record clamps it up there, and a refusal
                            // means the head — never above the committed
                            // tail — had already passed it.
                            assert(install_completion_applied(old(self)@, self@));
                            assert(snapshot_events_floored(old(self)@, self@)) by {
                                lemma_prefix_keeps(turn_start.events, self@.events);
                            }
                        }
                        if let Err(e) = applied {
                            return Err(e);
                        }
                    },
                    Ok(false) => {
                        self.install_snapshot = Some(task);
                    },
                    Err(e) => {
                        self.install_snapshot = Some(task);
                        return Err(e);
                    },
                }
            }
            let ghost before_load = self@;
            // Apply a finished committed-log read.
            if self.load_committed.is_some() {
                let mut task = self.load_committed.take().unwrap();
                let polled = self.io.poll_load_log(&mut task);
                match polled {
                    Ok(Some(log)) => {
                        load_applied = true;
                        self.load_committed_range = Ghost(None);
                        match log {
                            Log::Prefix(snapshot) => {
                                let loaded = self.handle_log_snapshot_loaded(snapshot);
                                proof {
                                    lemma_prefix_push(
                                        old(self)@.events,
                                        before_load.events,
                                        self@.events.last(),
                                    );
                                    lemma_prefix_push(
                                        before_load.events,
                                        before_load.events,
                                        self@.events.last(),
                                    );
                                    lemma_prefix_keeps(before_load.events, self@.events);
                                    assert(snapshot_events_floored(old(self)@, self@));
                                }
                                if let Err(e) = loaded {
                                    return Err(e);
                                }
                            },
                            Log::Suffix(slice) => {
                                let ghost before_consume = self@;
                                let ghost gslice = slice;
                                match self.handle_committed(slice) {
                                    Ok(n) => {
                                        next_state = n;
                                        proof {
                                            lemma_consume_frame(
                                                before_consume,
                                                None::<NextRole>,
                                                gslice.head.index.0 as int,
                                                gslice.entries@,
                                            );
                                            lemma_prefix_trans(
                                                old(self)@.events,
                                                before_consume.events,
                                                self@.events,
                                            );
                                            lemma_prefix_keeps(
                                                before_consume.events,
                                                self@.events,
                                            );
                                            assert(snapshot_events_floored(
                                                old(self)@,
                                                self@,
                                            ));
                                        }
                                    },
                                    Err(e) => {
                                        proof {
                                            lemma_consume_frame(
                                                before_consume,
                                                None::<NextRole>,
                                                gslice.head.index.0 as int,
                                                gslice.entries@,
                                            );
                                            lemma_prefix_trans(
                                                old(self)@.events,
                                                before_consume.events,
                                                self@.events,
                                            );
                                            lemma_prefix_keeps(
                                                before_consume.events,
                                                self@.events,
                                            );
                                            assert(snapshot_events_floored(
                                                old(self)@,
                                                self@,
                                            ));
                                        }
                                        return Err(e);
                                    },
                                }
                            },
                        }
                    },
                    Ok(None) => {
                        self.load_committed = Some(task);
                    },
                    Err(e) => {
                        self.load_committed = Some(task);
                        return Err(e);
                    },
                }
            }
            if self.load_committed.is_some()
                || self.history.consumed_tail().0 == self.history.committed_tail().0 {
                // Either the next batch is already being read, or there is
                // nothing left to consume.
                break;
            }
            if load_applied && self.history.consumed_tail().0 <= consumed_at_top.0 {
                // The backend answered the read, yet nothing it returned
                // covered the range that was asked for: re-reading would
                // only repeat that answer.
                return Err(Error { kind: ErrorKind::InconsistentState });
            }
            // Start reading the committed entries the host has not seen.
            let start = self.history.consumed_tail();
            let end = self.history.committed_tail();
            let task = self.io.load_log(start, Some(end));
            self.load_committed = Some(task);
            self.load_committed_range = Ghost(Some((start.0, end.0)));
        }
        Ok(next_state)
    }

    /// Whether the sender of `message` is the node this node votes for.
    fn is_following_sender(&self, message: &Message) -> (r: bool)
        ensures
            r == (self@.ballot.voted_for@ == message.spec_header().sender@),
    {
        self.local_node.ballot.voted_for == message.header().sender
    }

    /// Triages an inbound message ahead of the current role's own
    /// handler, as [`spec_handle_message`] states case by case. A message
    /// that triggers a role change is deferred for exactly one
    /// re-delivery to the new role.
    pub fn handle_message(&mut self, message: Message) -> (r: HandleMessageResult)
        requires
            old(self).wf(),
            // Only a higher-term message can trigger a self-nomination at
            // the successor of the sender's term, so only then must that
            // successor fit the machine range.
            message.spec_header().term.0 > old(self)@.ballot.term.0
                ==> message.spec_header().term.0 < u64::MAX,
        ensures
            final(self).wf(),
            spec_handle_message(old(self)@, message, final(self)@, r),
            final(self)@.ballot.term.0 >= old(self)@.ballot.term.0,
            final(self)@.history == old(self)@.history,
            old(self)@.events.is_prefix_of(final(self)@.events),
    {
        let unknown_sender = !self.history.config().is_known_node(&message.header().sender);
        if self.local_node.role == Role::Leader && unknown_sender {
            // A Leader ignores messages from outside the configuration. The
            // other roles accept them: a node restarting across a
            // configuration change must be able to learn the membership it
            // missed.
            return HandleMessageResult::Handled(None);
        }
        let msg_term = message.header().term;
        if msg_term.0 > self.local_node.ballot.term.0 {
            // A new election is under way; follow it — unless a healthy
            // leader is being tracked, in which case a stray higher-term
            // probe from a partitioned member must not drag the cluster
            // into needless elections.
            let is_follower = !(self.local_node.ballot.voted_for == self.local_node.id);
            if is_follower && !self.is_following_sender(&message) {
                return HandleMessageResult::Handled(None);
            }
            let tail = self.history.tail();
            let next_state: NextRole = match message {
                Message::RequestVoteCall { header, log_tail } => {
                    if log_tail.is_newer_or_equal_than(tail) {
                        // The candidate's log is sufficiently up to date:
                        // support it.
                        let candidate = header.sender.clone();
                        self.unread_message = Some(
                            Message::RequestVoteCall { header, log_tail },
                        );
                        self.follow_at(msg_term, candidate)
                    } else {
                        // The local log is newer: stand for election.
                        self.nominate_at(msg_term)
                    }
                }
                Message::AppendEntriesCall { header, committed_log_tail, suffix } => {
                    // A new leader has already been elected: follow it.
                    let leader = header.sender.clone();
                    self.unread_message = Some(
                        Message::AppendEntriesCall { header, committed_log_tail, suffix },
                    );
                    self.follow_at(msg_term, leader)
                }
                _ => {
                    if self.local_node.role == Role::Leader {
                        self.nominate_at(msg_term)
                    } else {
                        // No definite leader yet: reset to a self-vote and
                        // wait for one.
                        let local = self.local_node.id.clone();
                        self.follow_at(msg_term, local)
                    }
                }
            };
            HandleMessageResult::Handled(Some(next_state))
        } else if msg_term.0 < self.local_node.ballot.term.0 {
            // The sender's term is stale. The reply's content does not
            // matter — receivers read only its header — so the least
            // harmful one is sent: a negative vote.
            self.reply_request_vote(message.header(), false);
            HandleMessageResult::Handled(None)
        } else {
            if matches!(message, Message::RequestVoteCall { .. })
                && !self.is_following_sender(&message) {
                // Refuse to vote while following someone else.
                self.reply_request_vote(message.header(), false);
                HandleMessageResult::Handled(None)
            } else if matches!(message, Message::AppendEntriesCall { .. })
                && !self.is_following_sender(&message) {
                // This term now has a definite leader: follow it.
                let leader = message.header().sender.clone();
                self.unread_message = Some(message);
                let next = self.transit_to_follower(leader);
                HandleMessageResult::Handled(Some(next))
            } else {
                HandleMessageResult::Unhandled(message)
            }
        }
    }
}

impl<IO: Io> InstallSnapshot<IO> {
    /// What will be recorded in the history once the write is durable.
    pub closed spec fn spec_summary(&self) -> SnapshotSummary {
        self.summary
    }

    /// Starts the durable write of `prefix` and keeps its summary for the
    /// moment the write completes.
    pub fn new(common: &mut Common<IO>, prefix: LogPrefix) -> (task: InstallSnapshot<IO>)
        ensures
            final(common)@ == old(common)@,
            task.spec_summary() == (SnapshotSummary { tail: prefix.tail, config: prefix.config }),
    {
        let future = common.io.save_log_prefix(&prefix);
        let LogPrefix { tail, config, snapshot: _ } = prefix;
        InstallSnapshot { future, summary: SnapshotSummary { tail, config } }
    }
}

} // verus!
