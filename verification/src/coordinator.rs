//! The coordinator: it picks up the clients' requests one at a time and
//! drives each through a round of two-phase commit.

use crate::client::Client;
use crate::directory::distinct;
use crate::directory::names;
use crate::directory::position;
use crate::directory::register;
use crate::directory::registered;
use crate::directory::Peer;
use crate::message::EXIT_OPID;
use crate::message::EXIT_TXID;
use crate::message::Entry;
use crate::message::Message;
use crate::message::MessageType;
use crate::message::ProtocolMessage;
use crate::oplog::count_kind;
use crate::oplog::lemma_count_kind_push;
use crate::oplog::OpLog;
use crate::participant::Participant;
use crate::participant::ParticipantState;
use crate::participant::ParticipantView;
use crate::probability::Probability;
use crate::text::format_status;
use crate::text::push_signed;
use crate::text::signed_decimal;
use crate::text::signed_text;
use crate::text::status_line;
use crate::transport::clear;
use crate::transport::is_set;
use crate::transport::message_of;
use crate::transport::receive_within;
use crate::transport::transmit;
use crate::transport::Received;
use crate::transport::MAX_SEND_ATTEMPTS;
use crate::transport::REQUEST_POLL_MILLIS;
use crate::transport::REQUEST_POLL_ROUNDS;
use crate::transport::VOTE_TIMEOUT_MILLIS;
use std::sync::atomic::AtomicBool;
use std::sync::atomic::AtomicI32;
use std::sync::mpsc::Sender;
use std::sync::Arc;
use vstd::prelude::*;
use vstd::string::StringExecFns;

verus! {

/// The states of the coordinator: no transaction in flight, or one in the
/// middle of its round.
#[derive(Clone, Copy, Debug, PartialEq, Eq, Structural)]
pub enum CoordinatorState {
    Quiescent,
    Active,
}

/// What a coordinator is, as far as the protocol is concerned.
pub struct CoordinatorView {
    pub state: CoordinatorState,
    /// The decision of the round in flight, once it has been taken: true for
    /// commit.
    pub decision: Option<bool>,
    pub log: Seq<Entry>,
    /// The message that has been logged and waits to be sent.
    pub pending: Option<Message>,
    /// The registered name of the client whose request was accepted last:
    /// the client that is told the result of the round.
    pub client: Seq<char>,
    /// The names of the registered clients, in the order of registration.
    pub clients: Seq<Seq<char>>,
    /// The names of the registered participants, in the order of
    /// registration.
    pub participants: Seq<Seq<char>>,
    /// How many clients have joined.
    pub num_clients: int,
    /// How many participants have joined.
    pub num_participants: int,
    /// How many requests have been handled to the end.
    pub handled: int,
    /// How many requests are to be handled in all.
    pub total: int,
    pub successful: nat,
    pub failed: nat,
    pub unknown: nat,
}

/// The coordinator, with its ends of the links to all registered peers.
pub struct Coordinator {
    state: CoordinatorState,
    decision: Option<bool>,
    round_txid: i32,
    round_opid: i32,
    round_client: String,
    outbox: Option<ProtocolMessage>,
    log: OpLog,
    msg_success_prob: Probability,
    ops_success_prob: Probability,
    running: Arc<AtomicBool>,
    txids: Arc<AtomicI32>,
    clients: Vec<Peer>,
    participants: Vec<Peer>,
    num_clients: i32,
    num_participants: i32,
    num_req_handled: i32,
    total_req: i32,
    successful: u64,
    failed: u64,
    unknown: u64,
}

/// The name under which the coordinator signs its messages.
pub open spec fn coordinator_name() -> Seq<char> {
    "coordinator"@
}

/// The proposal that the coordinator makes of `request`.
pub open spec fn propose_entry(request: Entry) -> Entry {
    Entry {
        kind: MessageType::CoordinatorPropose,
        txid: request.txid,
        sender: coordinator_name(),
        opid: request.opid,
    }
}

/// The kind of the decision that is sent to the participants.
pub open spec fn decision_kind(commit: bool) -> MessageType {
    if commit {
        MessageType::CoordinatorCommit
    } else {
        MessageType::CoordinatorAbort
    }
}

/// The kind of the result that is sent to the client.
pub open spec fn result_kind(commit: bool) -> MessageType {
    if commit {
        MessageType::ClientResultCommit
    } else {
        MessageType::ClientResultAbort
    }
}

/// The decision on `request`.
pub open spec fn decision_entry(request: Entry, commit: bool) -> Entry {
    Entry {
        kind: decision_kind(commit),
        txid: request.txid,
        sender: coordinator_name(),
        opid: request.opid,
    }
}

/// The result of `request`, as its client is told.
pub open spec fn result_entry(request: Entry, commit: bool) -> Entry {
    Entry {
        kind: result_kind(commit),
        txid: request.txid,
        sender: coordinator_name(),
        opid: request.opid,
    }
}

/// What the coordinator logs of one transaction, in this order: the
/// request, its proposal, the decision and the matching result.
pub open spec fn round_entries(request: Entry, commit: bool) -> Seq<Entry> {
    seq![
        request,
        propose_entry(request),
        decision_entry(request, commit),
        result_entry(request, commit),
    ]
}

/// What came from one participant within the deadline counts for commit
/// of the transaction `txid`: only a vote to commit that transaction does.
/// A vote on another transaction, such as a late vote of an earlier round,
/// does not.
pub open spec fn is_commit_vote(vote: Option<ProtocolMessage>, txid: int) -> bool {
    vote matches Some(m) && m@.kind == MessageType::ParticipantVoteCommit && m@.txid == txid
}

/// Every participant's vote counts for commit of the transaction `txid`.
pub open spec fn unanimous(votes: Seq<Option<ProtocolMessage>>, txid: int) -> bool {
    forall|i: int| 0 <= i < votes.len() ==> is_commit_vote(#[trigger] votes[i], txid)
}

/// The four entries from position `4 * k` on are the log of one whole
/// transaction.
pub open spec fn round_at(log: Seq<Entry>, k: int) -> bool {
    let request = log[4 * k];
    let commit = log[4 * k + 2].kind == MessageType::CoordinatorCommit;
    &&& request.kind == MessageType::ClientRequest
    &&& log[4 * k + 1] == propose_entry(request)
    &&& log[4 * k + 2] == decision_entry(request, commit)
    &&& log[4 * k + 3] == result_entry(request, commit)
}

/// The request of the round in flight.
pub open spec fn request_in_flight(v: CoordinatorView) -> Entry {
    v.log[4 * v.handled]
}

/// What holds of every coordinator between two calls.
///
/// The log holds one whole round for each request handled, and after them
/// what has been logged of the round in flight. A message that waits to be
/// sent is the last thing logged. The counter of commits is the number of
/// commit decisions in the log, and likewise for aborts.
pub open spec fn consistent(v: CoordinatorView) -> bool {
    &&& v.unknown == 0
    &&& v.pending matches Some(m) ==> v.log.len() > 0 && v.log.last() == m.entry()
    &&& 0 <= v.handled <= v.total
    &&& 0 <= v.num_clients
    &&& 0 <= v.num_participants
    &&& distinct(v.clients)
    &&& distinct(v.participants)
    &&& forall|k: int| 0 <= k < v.handled ==> #[trigger] round_at(v.log, k)
    &&& v.successful == count_kind(v.log, MessageType::CoordinatorCommit)
    &&& v.failed == count_kind(v.log, MessageType::CoordinatorAbort)
    &&& match v.state {
        CoordinatorState::Quiescent => {
            &&& v.decision is None
            &&& v.log.len() == 4 * v.handled
            &&& v.successful + v.failed == v.handled
        },
        CoordinatorState::Active => {
            &&& v.handled < v.total
            &&& v.log.len() >= 4 * v.handled + 2
            &&& request_in_flight(v).kind == MessageType::ClientRequest
            &&& v.log[4 * v.handled + 1] == propose_entry(request_in_flight(v))
            &&& match v.decision {
                None => {
                    &&& v.log.len() == 4 * v.handled + 2
                    &&& v.successful + v.failed == v.handled
                },
                Some(commit) => {
                    &&& v.log.len() == 4 * v.handled + 3
                    &&& v.log[4 * v.handled + 2] == decision_entry(request_in_flight(v), commit)
                    &&& v.successful + v.failed == v.handled + 1
                },
            }
        },
    }
}

/// The coordinator with nothing waiting to be sent.
pub open spec fn flushed(v: CoordinatorView) -> CoordinatorView {
    CoordinatorView { pending: None, ..v }
}

/// The coordinator with the message `m` waiting to be sent.
pub open spec fn posted(v: CoordinatorView, m: Message) -> CoordinatorView {
    CoordinatorView { pending: Some(m), ..v }
}

/// A message of the coordinator. Its messages are numbered in the order in
/// which it generates them: three for each request.
pub open spec fn message_of_entry(e: Entry, uid: int) -> Message {
    Message { kind: e.kind, uid: uid as nat, txid: e.txid, sender: e.sender, opid: e.opid }
}

/// The proposal of `request`, as the message that goes to the
/// participants.
pub open spec fn propose_message(v: CoordinatorView, request: Entry) -> Message {
    message_of_entry(propose_entry(request), 3 * v.handled)
}

/// The decision of the round in flight, as the message that goes to the
/// participants.
pub open spec fn decision_message(v: CoordinatorView, commit: bool) -> Message {
    message_of_entry(decision_entry(request_in_flight(v), commit), 3 * v.handled + 1)
}

/// The result of the round in flight, as the message that goes to the
/// client.
pub open spec fn result_message(v: CoordinatorView) -> Message {
    message_of_entry(result_entry(request_in_flight(v), v.decision->0), 3 * v.handled + 2)
}

/// The coordinator after it has accepted `request` and logged it and its
/// proposal.
pub open spec fn begun(v: CoordinatorView, request: Entry) -> CoordinatorView {
    CoordinatorView {
        state: CoordinatorState::Active,
        decision: None,
        log: v.log.push(request).push(propose_entry(request)),
        ..v
    }
}

/// The coordinator after a turn in which it accepted `request` from the
/// client registered as `client`: the request and its proposal are logged,
/// the proposal waits to be sent, and `client` is the one to be told the
/// result.
pub open spec fn taken_up(v: CoordinatorView, request: Entry, client: Seq<char>) -> CoordinatorView {
    CoordinatorView {
        client,
        ..posted(begun(flushed(v), request), propose_message(v, request))
    }
}

/// The coordinator after it has taken and logged the decision of the round
/// in flight.
pub open spec fn settled(v: CoordinatorView, commit: bool) -> CoordinatorView {
    CoordinatorView {
        decision: Some(commit),
        log: v.log.push(decision_entry(request_in_flight(v), commit)),
        successful: if commit {
            v.successful + 1
        } else {
            v.successful
        },
        failed: if commit {
            v.failed
        } else {
            v.failed + 1
        },
        ..v
    }
}

/// The coordinator after it has logged the client's result and closed the
/// round in flight.
pub open spec fn concluded(v: CoordinatorView) -> CoordinatorView {
    CoordinatorView {
        state: CoordinatorState::Quiescent,
        decision: None,
        log: v.log.push(result_entry(request_in_flight(v), v.decision->0)),
        handled: v.handled + 1,
        ..v
    }
}

/// The coordinator after one whole round on `request` that ended in commit
/// or in abort.
pub open spec fn completed(v: CoordinatorView, request: Entry, commit: bool) -> CoordinatorView {
    CoordinatorView {
        log: v.log + round_entries(request, commit),
        handled: v.handled + 1,
        successful: if commit {
            v.successful + 1
        } else {
            v.successful
        },
        failed: if commit {
            v.failed
        } else {
            v.failed + 1
        },
        ..v
    }
}

/// The path of the log file of participant `id` under `base`.
pub open spec fn participant_log_path(base: Seq<char>, id: int) -> Seq<char> {
    base + "/participant_"@ + signed_decimal(id) + ".log"@
}

/// The path of the coordinator's log file under `base`.
pub open spec fn coordinator_log_path(base: Seq<char>) -> Seq<char> {
    base + "/coordinator.log"@
}

/// The path of the coordinator's log file under `logpathbase`.
pub fn coordinator_log_file(logpathbase: &String) -> (path: String)
    ensures
        path@ == coordinator_log_path(logpathbase@),
{
    let mut path = logpathbase.clone();
    path.append("/coordinator.log");
    path
}

/// The path of the log file of participant `id` under `logpathbase`.
pub fn participant_log_file(logpathbase: &String, id: i32) -> (path: String)
    ensures
        path@ == participant_log_path(logpathbase@, id as int),
{
    let mut path = logpathbase.clone();
    path.append("/participant_");
    push_signed(&mut path, id);
    path.append(".log");
    path
}

impl View for Coordinator {
    type V = CoordinatorView;

    closed spec fn view(&self) -> CoordinatorView {
        CoordinatorView {
            state: self.state,
            decision: self.decision,
            log: self.log@,
            pending: match self.outbox {
                Some(m) => Some(m@),
                None => None,
            },
            client: self.round_client@,
            clients: names(self.clients@),
            participants: names(self.participants@),
            num_clients: self.num_clients as int,
            num_participants: self.num_participants as int,
            handled: self.num_req_handled as int,
            total: self.total_req as int,
            successful: self.successful as nat,
            failed: self.failed as nat,
            unknown: self.unknown as nat,
        }
    }
}

proof fn lemma_begun_consistent(v: CoordinatorView, request: Entry)
    requires
        consistent(v),
        v.state == CoordinatorState::Quiescent,
        v.pending is None,
        v.handled < v.total,
        request.kind == MessageType::ClientRequest,
    ensures
        consistent(begun(v, request)),
{
    let mid = v.log.push(request);
    let after = begun(v, request);
    assert forall|k: int| 0 <= k < after.handled implies #[trigger] round_at(after.log, k) by {
        assert(round_at(v.log, k));
    }
    lemma_count_kind_push(v.log, request, MessageType::CoordinatorCommit);
    lemma_count_kind_push(mid, propose_entry(request), MessageType::CoordinatorCommit);
    lemma_count_kind_push(v.log, request, MessageType::CoordinatorAbort);
    lemma_count_kind_push(mid, propose_entry(request), MessageType::CoordinatorAbort);
}

proof fn lemma_settled_consistent(v: CoordinatorView, commit: bool)
    requires
        consistent(v),
        v.state == CoordinatorState::Active,
        v.decision is None,
        v.pending is None,
    ensures
        consistent(settled(v, commit)),
{
    let after = settled(v, commit);
    let e = decision_entry(request_in_flight(v), commit);
    assert forall|k: int| 0 <= k < after.handled implies #[trigger] round_at(after.log, k) by {
        assert(round_at(v.log, k));
    }
    lemma_count_kind_push(v.log, e, MessageType::CoordinatorCommit);
    lemma_count_kind_push(v.log, e, MessageType::CoordinatorAbort);
}

proof fn lemma_concluded_consistent(v: CoordinatorView)
    requires
        consistent(v),
        v.state == CoordinatorState::Active,
        v.decision is Some,
        v.pending is None,
    ensures
        consistent(concluded(v)),
{
    let after = concluded(v);
    let e = result_entry(request_in_flight(v), v.decision->0);
    assert forall|k: int| 0 <= k < after.handled implies #[trigger] round_at(after.log, k) by {
        if k < v.handled {
            assert(round_at(v.log, k));
        }
    }
    lemma_count_kind_push(v.log, e, MessageType::CoordinatorCommit);
    lemma_count_kind_push(v.log, e, MessageType::CoordinatorAbort);
}

/// Accepting a request, settling its round and concluding it is one whole
/// round: together the three steps log the request, its proposal, the
/// decision and the matching result, in this order, and nothing else.
pub proof fn law_three_steps_log_one_round(v: CoordinatorView, request: Entry, commit: bool)
    requires
        v.state == CoordinatorState::Quiescent,
        v.decision is None,
        v.log.len() == 4 * v.handled,
    ensures
        concluded(settled(begun(v, request), commit)) == completed(v, request, commit),
        completed(v, request, commit).log.subrange(v.log.len() as int, v.log.len() as int + 4)
            == round_entries(request, commit),
{
    let a = concluded(settled(begun(v, request), commit));
    let b = completed(v, request, commit);
    assert(a.log =~= b.log);
    assert(b.log.subrange(v.log.len() as int, v.log.len() as int + 4) =~= round_entries(request, commit));
}

/// What one offer of a message to the unreliable transport comes to.
///
/// `taken` is `None` if the draw dropped the message; else it tells whether
/// the channel took it. The message counts as sent only if the channel took
/// it, and `panic` is set only if the channel refused it.
pub fn settle_send(taken: Option<bool>, panic: &mut bool) -> (sent: bool)
    ensures
        sent == (taken == Some(true)),
        *final(panic) == (*old(panic) || taken == Some(false)),
{
    match taken {
        Some(true) => true,
        Some(false) => {
            *panic = true;
            false
        },
        None => false,
    }
}

/// Whether a message that was offered to the unreliable transport is
/// offered again: only a message that was dropped is, as long as the channel
/// has not failed and the message has been offered fewer than
/// `MAX_SEND_ATTEMPTS` times.
pub fn offers_again(sent: bool, panic: bool, attempts: u32) -> (again: bool)
    ensures
        again == (!sent && !panic && attempts < MAX_SEND_ATTEMPTS),
{
    !sent && !panic && attempts < MAX_SEND_ATTEMPTS
}

/// The request that one poll of a client's endpoint gave: the message that
/// came, if one came and it is a request. Any other message is passed
/// over, and so is a deadline that passed or an endpoint that is closed.
pub fn pick_request(got: Received) -> (request: Option<ProtocolMessage>)
    ensures
        request == match got {
            Received::Message(m) => if m@.kind == MessageType::ClientRequest {
                Some(m)
            } else {
                None
            },
            _ => None,
        },
{
    match got {
        Received::Message(m) => {
            if m.mtype == MessageType::ClientRequest {
                Some(m)
            } else {
                None
            }
        },
        _ => None,
    }
}

/// Whether every vote counts for commit of the transaction `txid`.
pub fn all_commit(votes: &Vec<Option<ProtocolMessage>>, txid: i32) -> (yes: bool)
    ensures
        yes == unanimous(votes@, txid as int),
{
    let mut i: usize = 0;
    while i < votes.len()
        invariant
            i <= votes@.len(),
            forall|j: int| 0 <= j < i ==> is_commit_vote(#[trigger] votes@[j], txid as int),
        decreases votes@.len() - i,
    {
        let for_commit = match &votes[i] {
            Some(m) => m.mtype == MessageType::ParticipantVoteCommit && m.txid == txid,
            None => false,
        };
        if !for_commit {
            assert(!is_commit_vote(votes@[i as int], txid as int));
            return false;
        }
        i += 1;
    }
    true
}

impl Coordinator {
    /// The coordinator is what its view says, and its view is consistent.
    pub closed spec fn wf(&self) -> bool {
        &&& self.log.wf()
        &&& consistent(self@)
        &&& self.state == CoordinatorState::Active ==> self.round_txid == request_in_flight(
            self@,
        ).txid && self.round_opid == request_in_flight(self@).opid
    }

    /// The chance that the unreliable transport delivers a message.
    pub closed spec fn msg_success_prob(&self) -> Probability {
        self.msg_success_prob
    }

    /// The chance that a participant's local operation succeeds.
    pub closed spec fn ops_success_prob(&self) -> Probability {
        self.ops_success_prob
    }

    /// The path of the file that holds the coordinator's log.
    pub closed spec fn log_path(&self) -> Seq<char> {
        self.log.path_view()
    }

    /// Every well-formed coordinator is consistent.
    pub proof fn lemma_consistent(&self)
        requires
            self.wf(),
        ensures
            consistent(self@),
    {
    }

    /// A new coordinator without peers. The file of its log is at `logpath`,
    /// `r` is the flag that tells whether the simulation runs, and
    /// `total_requests` is the number of requests after which it shuts the
    /// simulation down.
    pub fn new(
        logpath: String,
        r: Arc<AtomicBool>,
        msg_success_prob: Probability,
        ops_success_prob: Probability,
        total_requests: i32,
    ) -> (c: Coordinator)
        requires
            total_requests >= 0,
        ensures
            c.wf(),
            c@ == (CoordinatorView {
                state: CoordinatorState::Quiescent,
                decision: None,
                log: Seq::<Entry>::empty(),
                pending: None,
                client: Seq::<char>::empty(),
                clients: Seq::<Seq<char>>::empty(),
                participants: Seq::<Seq<char>>::empty(),
                num_clients: 0,
                num_participants: 0,
                handled: 0,
                total: total_requests as int,
                successful: 0,
                failed: 0,
                unknown: 0,
            }),
            c.msg_success_prob() == msg_success_prob,
            c.ops_success_prob() == ops_success_prob,
            c.log_path() == logpath@,
    {
        let c = Coordinator {
            state: CoordinatorState::Quiescent,
            decision: None,
            round_txid: 0,
            round_opid: 0,
            round_client: String::new(),
            outbox: None,
            log: OpLog::new(logpath),
            msg_success_prob,
            ops_success_prob,
            running: r,
            txids: Arc::new(AtomicI32::new(1)),
            clients: Vec::new(),
            participants: Vec::new(),
            num_clients: 0,
            num_participants: 0,
            num_req_handled: 0,
            total_req: total_requests,
            successful: 0,
            failed: 0,
            unknown: 0,
        };
        assert(c@.clients =~= Seq::<Seq<char>>::empty());
        assert(c@.participants =~= Seq::<Seq<char>>::empty());
        c
    }

    /// The state of the coordinator.
    pub fn state(&self) -> (s: CoordinatorState)
        ensures
            s == self@.state,
    {
        self.state
    }

    /// How many transactions committed.
    pub fn successful(&self) -> (n: u64)
        ensures
            n == self@.successful,
    {
        self.successful
    }

    /// How many transactions aborted.
    pub fn failed(&self) -> (n: u64)
        ensures
            n == self@.failed,
    {
        self.failed
    }

    /// How many transactions ended neither way: none ever does.
    pub fn unknown(&self) -> (n: u64)
        ensures
            n == self@.unknown,
    {
        self.unknown
    }

    /// How many requests have been handled to the end.
    pub fn num_req_handled(&self) -> (n: i32)
        ensures
            n == self@.handled,
    {
        self.num_req_handled
    }

    /// How many requests are to be handled in all.
    pub fn total_req(&self) -> (n: i32)
        ensures
            n == self@.total,
    {
        self.total_req
    }

    /// How many clients have joined.
    pub fn num_clients(&self) -> (n: i32)
        ensures
            n == self@.num_clients,
    {
        self.num_clients
    }

    /// How many participants have joined.
    pub fn num_participants(&self) -> (n: i32)
        ensures
            n == self@.num_participants,
    {
        self.num_participants
    }

    /// The registered name of the client whose request was accepted last.
    pub fn round_client(&self) -> (name: &String)
        ensures
            name@ == self@.client,
    {
        &self.round_client
    }

    /// The operation log of the coordinator.
    pub fn log(&self) -> (log: &OpLog)
        ensures
            log@ == self@.log,
            log.path_view() == self.log_path(),
            self.wf() ==> log.wf(),
    {
        &self.log
    }

    /// Registers a new participant under `name` and returns it. The
    /// coordinator keeps its own ends of the link to it. The participant
    /// gets the number of participants that joined before it as its
    /// identifier, and keeps its log under `logpathbase`.
    pub fn participant_join(&mut self, name: String, logpathbase: &String) -> (p: Participant)
        requires
            old(self).wf(),
            old(self)@.state == CoordinatorState::Quiescent,
            old(self)@.num_participants < i32::MAX,
        ensures
            final(self).wf(),
            final(self)@ == (CoordinatorView {
                participants: registered(old(self)@.participants, name@),
                num_participants: old(self)@.num_participants + 1,
                ..old(self)@
            }),
            final(self).msg_success_prob() == old(self).msg_success_prob(),
            final(self).ops_success_prob() == old(self).ops_success_prob(),
            final(self).log_path() == old(self).log_path(),
            p.wf(),
            p@ == (ParticipantView {
                id: old(self)@.num_participants,
                state: ParticipantState::Quiescent,
                log: Seq::<Entry>::empty(),
                pending: None,
                successful: 0,
                failed: 0,
                unknown: 0,
            }),
            p.op_success_prob() == old(self).ops_success_prob(),
            p.msg_success_prob() == old(self).msg_success_prob(),
            p.log_path() == participant_log_path(logpathbase@, old(self)@.num_participants),
            p.id_text() == signed_decimal(old(self)@.num_participants),
    {
        let (p_tx, coord_rx) = std::sync::mpsc::channel::<ProtocolMessage>();
        let (coord_tx, p_rx) = std::sync::mpsc::channel::<ProtocolMessage>();
        let id = self.num_participants;
        let part = Participant::new(
            id,
            signed_text(id),
            p_tx,
            p_rx,
            participant_log_file(logpathbase, id),
            self.running.clone(),
            self.ops_success_prob,
            self.msg_success_prob,
        );
        self.num_participants = id + 1;
        register(&mut self.participants, Peer { name, tx: coord_tx, rx: coord_rx });
        part
    }

    /// Registers a new client under `name` and returns it. The coordinator
    /// keeps its own ends of the link to it. The client gets the number of
    /// clients that joined before it as its identifier.
    pub fn client_join(&mut self, name: String) -> (c: Client)
        requires
            old(self).wf(),
            old(self)@.state == CoordinatorState::Quiescent,
            old(self)@.num_clients < i32::MAX,
        ensures
            final(self).wf(),
            final(self)@ == (CoordinatorView {
                clients: registered(old(self)@.clients, name@),
                num_clients: old(self)@.num_clients + 1,
                ..old(self)@
            }),
            final(self).msg_success_prob() == old(self).msg_success_prob(),
            final(self).ops_success_prob() == old(self).ops_success_prob(),
            final(self).log_path() == old(self).log_path(),
            c.wf(),
            c@ == (crate::client::ClientView {
                id: old(self)@.num_clients,
                opid: 0,
                successful: 0,
                failed: 0,
                unknown: 0,
                open: true,
            }),
            c.id_text() == signed_decimal(old(self)@.num_clients),
    {
        let (client_tx, coord_rx) = std::sync::mpsc::channel::<ProtocolMessage>();
        let (coord_tx, client_rx) = std::sync::mpsc::channel::<ProtocolMessage>();
        let id = self.num_clients;
        let client = Client::new(
            id,
            signed_text(id),
            client_tx,
            client_rx,
            self.running.clone(),
            self.txids.clone(),
        );
        self.num_clients = id + 1;
        register(&mut self.clients, Peer { name, tx: coord_tx, rx: coord_rx });
        client
    }

    /// Offers one message to the unreliable transport, once. A random draw
    /// decides whether the message is handed to the channel or silently
    /// dropped. The result tells whether the channel took the message. A
    /// dropped message is no error: only when the channel itself fails,
    /// because the peer is gone, is `panic` set.
    pub fn send(&self, sender: &Sender<ProtocolMessage>, pm: ProtocolMessage, panic: &mut bool) -> (sent:
        bool)
        ensures
            sent ==> *final(panic) == *old(panic),
            *old(panic) ==> *final(panic),
            self.msg_success_prob().impossible() ==> !sent && *final(panic) == *old(panic),
            self.msg_success_prob().certain() && !sent ==> *final(panic),
    {
        let taken = if self.msg_success_prob.sample() {
            Some(transmit(sender, pm))
        } else {
            None
        };
        settle_send(taken, panic)
    }

    /// Offers one message to the unreliable transport until the channel has
    /// taken it, the channel fails, or the message has been dropped
    /// `MAX_SEND_ATTEMPTS` times in a row. The result tells whether the
    /// channel took the message.
    pub fn send_with_retry(&self, sender: &Sender<ProtocolMessage>, pm: &ProtocolMessage) -> (sent:
        bool)
        ensures
            self.msg_success_prob().impossible() ==> !sent,
    {
        let mut panic = false;
        let mut sent = self.send(sender, pm.clone(), &mut panic);
        let mut attempts: u32 = 1;
        while offers_again(sent, panic, attempts)
            invariant
                attempts <= MAX_SEND_ATTEMPTS,
                self.msg_success_prob().impossible() ==> !sent,
            decreases MAX_SEND_ATTEMPTS - attempts,
        {
            sent = self.send(sender, pm.clone(), &mut panic);
            attempts = attempts + 1;
        }
        sent
    }

    /// Sends one message to every participant, in the order of
    /// registration, each with retry. A participant whose channel fails is
    /// passed over. The result is the number of participants that were
    /// reached.
    pub fn broadcast(&self, pm: &ProtocolMessage) -> (reached: usize)
        ensures
            reached <= self@.participants.len(),
            self.msg_success_prob().impossible() ==> reached == 0,
    {
        let mut reached: usize = 0;
        let mut i: usize = 0;
        while i < self.participants.len()
            invariant
                reached <= i <= self.participants@.len(),
                self.msg_success_prob().impossible() ==> reached == 0,
            decreases self.participants@.len() - i,
        {
            if self.send_with_retry(&self.participants[i].tx, pm) {
                reached = reached + 1;
            }
            i += 1;
        }
        reached
    }

    /// Looks for the next request, between two rounds. Each client's
    /// endpoint is polled in the order of registration with a short
    /// deadline, and the clients are gone round a bounded number of times.
    /// The first request seen is returned with the registered name of its
    /// client; a message that is no request is passed over, and so is an
    /// endpoint that is closed. If no request is seen, the name is empty.
    /// `found` tells which.
    pub fn recv_request(&mut self, found: &mut bool) -> (request: (Option<ProtocolMessage>, String))
        requires
            old(self)@.state == CoordinatorState::Quiescent,
        ensures
            *final(self) == *old(self),
            *final(found) == request.0.is_some(),
            request.0 matches Some(m) ==> m@.kind == MessageType::ClientRequest && old(self)@.clients.contains(request.1@),
            request.0 is None ==> request.1@ == Seq::<char>::empty(),
    {
        let mut round: u32 = 0;
        while round < REQUEST_POLL_ROUNDS
            invariant
                *self == *old(self),
                round <= REQUEST_POLL_ROUNDS,
            decreases REQUEST_POLL_ROUNDS - round,
        {
            let mut i: usize = 0;
            while i < self.clients.len()
                invariant
                    *self == *old(self),
                    i <= self.clients@.len(),
                decreases self.clients@.len() - i,
            {
                let got = pick_request(receive_within(&self.clients[i].rx, REQUEST_POLL_MILLIS));
                match got {
                    Some(m) => {
                        *found = true;
                        let name = self.clients[i].name.clone();
                        assert(names(self.clients@)[i as int] == name@);
                        return (Some(m), name);
                    },
                    None => {},
                }
                i += 1;
            }
            round = round + 1;
        }
        *found = false;
        (None, String::new())
    }

    /// Waits for the vote of every participant, in the order of
    /// registration, each with the vote deadline. The result holds, for
    /// each participant, the message that came from it, or `None` if the
    /// deadline passed or its channel is closed.
    pub fn collect_votes(&self) -> (votes: Vec<Option<ProtocolMessage>>)
        ensures
            votes@.len() == self@.participants.len(),
    {
        let mut votes: Vec<Option<ProtocolMessage>> = Vec::new();
        let mut i: usize = 0;
        while i < self.participants.len()
            invariant
                i <= self.participants@.len(),
                votes@.len() == i,
            decreases self.participants@.len() - i,
        {
            votes.push(message_of(receive_within(&self.participants[i].rx, VOTE_TIMEOUT_MILLIS)));
            i += 1;
        }
        votes
    }

    /// Accepts `request` and opens its round: logs the request and the
    /// proposal, and returns the proposal for the participants.
    pub fn begin_round(&mut self, request: &ProtocolMessage) -> (propose: ProtocolMessage)
        requires
            old(self).wf(),
            old(self)@.state == CoordinatorState::Quiescent,
            old(self)@.pending is None,
            old(self)@.handled < old(self)@.total,
            request@.kind == MessageType::ClientRequest,
        ensures
            final(self).wf(),
            final(self)@ == begun(old(self)@, request@.entry()),
            propose@ == propose_message(old(self)@, request@.entry()),
            final(self).msg_success_prob() == old(self).msg_success_prob(),
            final(self).ops_success_prob() == old(self).ops_success_prob(),
            final(self).log_path() == old(self).log_path(),
    {
        proof {
            lemma_begun_consistent(self@, request@.entry());
        }
        self.log.append(request.mtype, request.txid, request.senderid.clone(), request.opid);
        let propose = ProtocolMessage::generate(
            MessageType::CoordinatorPropose,
            3 * (self.num_req_handled as u64),
            request.txid,
            String::from_str("coordinator"),
            request.opid,
        );
        self.log.append(propose.mtype, propose.txid, propose.senderid.clone(), propose.opid);
        self.state = CoordinatorState::Active;
        self.decision = None;
        self.round_txid = request.txid;
        self.round_opid = request.opid;
        propose
    }

    /// Takes the decision of the round in flight from the votes: commit if
    /// every participant's vote is a vote to commit the transaction of the
    /// round, abort otherwise. The decision is logged and counted, and
    /// returned for the participants.
    pub fn decide(&mut self, votes: &Vec<Option<ProtocolMessage>>) -> (decision: ProtocolMessage)
        requires
            old(self).wf(),
            old(self)@.state == CoordinatorState::Active,
            old(self)@.decision is None,
            old(self)@.pending is None,
        ensures
            final(self).wf(),
            final(self)@ == settled(
                old(self)@,
                unanimous(votes@, request_in_flight(old(self)@).txid),
            ),
            decision@.kind == MessageType::CoordinatorCommit <==> unanimous(
                votes@,
                request_in_flight(old(self)@).txid,
            ),
            decision@ == decision_message(
                old(self)@,
                unanimous(votes@, request_in_flight(old(self)@).txid),
            ),
            final(self).msg_success_prob() == old(self).msg_success_prob(),
            final(self).ops_success_prob() == old(self).ops_success_prob(),
            final(self).log_path() == old(self).log_path(),
    {
        let commit = all_commit(votes, self.round_txid);
        proof {
            lemma_settled_consistent(self@, commit);
        }
        let kind = if commit {
            MessageType::CoordinatorCommit
        } else {
            MessageType::CoordinatorAbort
        };
        let decision = ProtocolMessage::generate(
            kind,
            3 * (self.num_req_handled as u64) + 1,
            self.round_txid,
            String::from_str("coordinator"),
            self.round_opid,
        );
        self.log.append(decision.mtype, decision.txid, decision.senderid.clone(), decision.opid);
        if commit {
            self.successful = self.successful + 1;
        } else {
            self.failed = self.failed + 1;
        }
        self.decision = Some(commit);
        decision
    }

    /// Closes the round in flight: logs the result that matches the
    /// decision, counts the request as handled, and returns the result for
    /// the client.
    pub fn finish_round(&mut self) -> (result: ProtocolMessage)
        requires
            old(self).wf(),
            old(self)@.state == CoordinatorState::Active,
            old(self)@.decision is Some,
            old(self)@.pending is None,
        ensures
            final(self).wf(),
            final(self)@ == concluded(old(self)@),
            result@ == result_message(old(self)@),
            final(self).msg_success_prob() == old(self).msg_success_prob(),
            final(self).ops_success_prob() == old(self).ops_success_prob(),
            final(self).log_path() == old(self).log_path(),
    {
        proof {
            lemma_concluded_consistent(self@);
        }
        let commit = match self.decision {
            Some(c) => c,
            None => false,
        };
        let kind = if commit {
            MessageType::ClientResultCommit
        } else {
            MessageType::ClientResultAbort
        };
        let result = ProtocolMessage::generate(
            kind,
            3 * (self.num_req_handled as u64) + 2,
            self.round_txid,
            String::from_str("coordinator"),
            self.round_opid,
        );
        self.log.append(result.mtype, result.txid, result.senderid.clone(), result.opid);
        self.num_req_handled = self.num_req_handled + 1;
        self.state = CoordinatorState::Quiescent;
        self.decision = None;
        result
    }

    /// The message that ends the simulation for every peer.
    pub fn exit_message(&self) -> (exit: ProtocolMessage)
        requires
            self.wf(),
        ensures
            exit@ == (Message {
                kind: MessageType::CoordinatorExit,
                uid: (3 * self@.handled) as nat,
                txid: EXIT_TXID as int,
                sender: coordinator_name(),
                opid: EXIT_OPID as int,
            }),
    {
        ProtocolMessage::generate(
            MessageType::CoordinatorExit,
            3 * (self.num_req_handled as u64),
            EXIT_TXID,
            String::from_str("coordinator"),
            EXIT_OPID,
        )
    }

    /// The status line of the coordinator: its name and how many
    /// transactions committed, aborted and ended unknown.
    pub fn report_status(&mut self) -> (line: String)
        ensures
            *final(self) == *old(self),
            line@ == status_line(
                coordinator_name(),
                old(self)@.successful,
                old(self)@.failed,
                old(self)@.unknown,
            ),
    {
        format_status("coordinator", self.successful, self.failed, self.unknown)
    }

    /// One turn of the coordinator's side of the protocol. The result tells
    /// whether there is more to do.
    ///
    /// A turn first sends the message that waits to be sent: a proposal or
    /// a decision to every participant, a result to the client of the round.
    /// Then it takes the next step of the round:
    ///
    /// - between two rounds, while requests remain to be handled and the
    ///   simulation runs, it looks for a request and, if it finds one, logs
    ///   it and its proposal;
    /// - after the proposal has gone out, it collects the votes and logs
    ///   the decision;
    /// - after the decision has gone out, it logs the result and counts the
    ///   request as handled.
    ///
    /// What a step logs waits to be sent in the next turn, so that the
    /// caller can store the log in between: no message goes out before it
    /// has been logged.
    ///
    /// Once all requests are handled or the simulation has stopped, the
    /// coordinator sends the exit message to every participant and every
    /// client, if the simulation still runs, and clears the shared
    /// `running` flag. Then there is nothing more to do.
    pub fn protocol(&mut self) -> (more: bool)
        requires
            old(self).wf(),
        ensures
            final(self).wf(),
            final(self).msg_success_prob() == old(self).msg_success_prob(),
            final(self).ops_success_prob() == old(self).ops_success_prob(),
            final(self).log_path() == old(self).log_path(),
            !more ==> old(self)@.state == CoordinatorState::Quiescent && final(self)@ == flushed(
                old(self)@,
            ),
            old(self)@.state == CoordinatorState::Quiescent ==> {
                &&& more ==> old(self)@.handled < old(self)@.total
                &&& old(self)@.handled == old(self)@.total ==> !more
                &&& final(self)@ == flushed(old(self)@) || exists|request: Entry, client: Seq<char>|
                    request.kind == MessageType::ClientRequest && old(self)@.clients.contains(
                        client,
                    ) && #[trigger] taken_up(old(self)@, request, client) == final(self)@
            },
            old(self)@.state == CoordinatorState::Active && old(self)@.decision is None
                ==> exists|commit: bool|
                #[trigger] posted(
                    settled(flushed(old(self)@), commit),
                    decision_message(old(self)@, commit),
                ) == final(self)@,
            old(self)@.state == CoordinatorState::Active && old(self)@.decision is Some
                ==> final(self)@ == posted(
                concluded(flushed(old(self)@)),
                result_message(old(self)@),
            ),
    {
        let waiting = self.outbox.take();
        match self.state {
            CoordinatorState::Quiescent => {
                match waiting {
                    Some(result) => {
                        match position(&self.clients, &self.round_client) {
                            Some(i) => {
                                let _sent = self.send_with_retry(&self.clients[i].tx, &result);
                            },
                            None => {},
                        }
                    },
                    None => {},
                }
                if self.num_req_handled != self.total_req && is_set(&self.running) {
                    let mut found = false;
                    let (request, client) = self.recv_request(&mut found);
                    match request {
                        Some(pm) => {
                            let propose = self.begin_round(&pm);
                            let ghost name = client@;
                            self.round_client = client;
                            self.outbox = Some(propose);
                            assert(taken_up(old(self)@, pm@.entry(), name) == self@);
                        },
                        None => {},
                    }
                    true
                } else {
                    if is_set(&self.running) {
                        let exit = self.exit_message();
                        let _reached = self.broadcast(&exit);
                        let mut i: usize = 0;
                        while i < self.clients.len()
                            invariant
                                self@ == flushed(old(self)@),
                                self.wf(),
                                self.msg_success_prob() == old(self).msg_success_prob(),
                                self.ops_success_prob() == old(self).ops_success_prob(),
                                self.log_path() == old(self).log_path(),
                                i <= self.clients@.len(),
                            decreases self.clients@.len() - i,
                        {
                            let _sent = self.send_with_retry(&self.clients[i].tx, &exit);
                            i += 1;
                        }
                    }
                    clear(&self.running);
                    false
                }
            },
            CoordinatorState::Active => {
                match self.decision {
                    None => {
                        match waiting {
                            Some(propose) => {
                                let _reached = self.broadcast(&propose);
                            },
                            None => {},
                        }
                        let votes = self.collect_votes();
                        let decision = self.decide(&votes);
                        self.outbox = Some(decision);
                        assert(posted(
                            settled(
                                flushed(old(self)@),
                                unanimous(votes@, request_in_flight(old(self)@).txid),
                            ),
                            decision_message(
                                old(self)@,
                                unanimous(votes@, request_in_flight(old(self)@).txid),
                            ),
                        ) == self@);
                        true
                    },
                    Some(_) => {
                        match waiting {
                            Some(decision) => {
                                let _told = self.broadcast(&decision);
                            },
                            None => {},
                        }
                        let result = self.finish_round();
                        self.outbox = Some(result);
                        true
                    },
                }
            },
        }
    }
}

} // verus!
