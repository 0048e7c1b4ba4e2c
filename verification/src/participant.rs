//! A participant: one simulated resource manager. It votes on each proposal
//! of the coordinator and applies the decision that follows.

use crate::message::entry_of;
use crate::message::is_decision;
use crate::message::is_vote;
use crate::message::Entry;
use crate::message::Message;
use crate::message::MessageType;
use crate::message::ProtocolMessage;
use crate::message::RequestStatus;
use crate::oplog::agree;
use crate::oplog::contradicts;
use crate::oplog::count_kind;
use crate::oplog::lemma_count_kind_push;
use crate::oplog::opposes;
use crate::oplog::OpLog;
use crate::probability::Probability;
use crate::text::format_status;
use crate::text::numbered;
use crate::text::signed_decimal;
use crate::text::status_line;
use crate::transport::clear;
use crate::transport::is_set;
use crate::transport::message_of;
use crate::transport::receive;
use crate::transport::transmit;
use crate::transport::Received;
use std::sync::atomic::AtomicBool;
use std::sync::mpsc::Receiver;
use std::sync::mpsc::Sender;
use std::sync::Arc;
use vstd::prelude::*;

verus! {

/// The states of a participant: between two transactions, or after its vote
/// and before the decision.
#[derive(Clone, Copy, Debug, PartialEq, Eq, Structural)]
pub enum ParticipantState {
    Quiescent,
    Voted,
}

/// What a participant is, as far as the protocol is concerned.
pub struct ParticipantView {
    pub id: int,
    pub state: ParticipantState,
    pub log: Seq<Entry>,
    /// The vote that has been logged and waits to be sent.
    pub pending: Option<Message>,
    pub successful: nat,
    pub failed: nat,
    pub unknown: nat,
}

/// One participant, with its own ends of the link to the coordinator.
pub struct Participant {
    id: i32,
    id_str: String,
    state: ParticipantState,
    log: OpLog,
    op_success_prob: Probability,
    msg_success_prob: Probability,
    tx: Sender<ProtocolMessage>,
    rx: Receiver<ProtocolMessage>,
    running: Arc<AtomicBool>,
    ballot: Option<ProtocolMessage>,
    successful: u64,
    failed: u64,
    unknown: u64,
}

/// The name under which participant `id` signs its messages.
pub open spec fn participant_name(id: int) -> Seq<char> {
    "participant_"@ + signed_decimal(id)
}

/// The kind of the vote after a local operation that succeeded or failed.
pub open spec fn vote_kind(success: bool) -> MessageType {
    if success {
        MessageType::ParticipantVoteCommit
    } else {
        MessageType::ParticipantVoteAbort
    }
}

/// The vote of participant `id` on `propose`.
pub open spec fn vote_entry(id: int, propose: Entry, success: bool) -> Entry {
    Entry {
        kind: vote_kind(success),
        txid: propose.txid,
        sender: participant_name(id),
        opid: propose.opid,
    }
}

/// The vote of the participant `v` on `propose`, as a message. The votes of
/// one participant are numbered in the order in which it casts them.
pub open spec fn vote_message(v: ParticipantView, propose: Entry, success: bool) -> Message {
    Message {
        kind: vote_kind(success),
        uid: v.successful + v.failed + v.unknown,
        txid: propose.txid,
        sender: participant_name(v.id),
        opid: propose.opid,
    }
}

/// The participant with the vote `ballot` waiting to be sent.
pub open spec fn stashed(v: ParticipantView, ballot: Message) -> ParticipantView {
    ParticipantView { pending: Some(ballot), ..v }
}

/// The participant after it has logged `propose` and its own vote.
pub open spec fn voted(v: ParticipantView, propose: Entry, success: bool) -> ParticipantView {
    ParticipantView {
        state: ParticipantState::Voted,
        log: v.log.push(propose).push(vote_entry(v.id, propose, success)),
        ..v
    }
}

/// How a participant whose log is `log` sees a transaction after `reply`
/// came in answer to its vote; `None` stands for a link that closed before
/// any answer. A decision counts unless the log already holds the opposite
/// decision on the same transaction.
pub open spec fn status_of(log: Seq<Entry>, reply: Option<Entry>) -> RequestStatus {
    match reply {
        Some(e) => if contradicts(log, e.kind, e.txid) {
            RequestStatus::Unknown
        } else if e.kind == MessageType::CoordinatorCommit {
            RequestStatus::Committed
        } else if e.kind == MessageType::CoordinatorAbort {
            RequestStatus::Aborted
        } else {
            RequestStatus::Unknown
        },
        None => RequestStatus::Unknown,
    }
}

/// The participant after `reply` came in answer to its vote. A decision
/// that counts is logged and counted; anything else only counts as unknown.
pub open spec fn decided(v: ParticipantView, reply: Option<Entry>) -> ParticipantView {
    match status_of(v.log, reply) {
        RequestStatus::Committed => ParticipantView {
            state: ParticipantState::Quiescent,
            log: v.log.push(reply->0),
            pending: None,
            successful: v.successful + 1,
            ..v
        },
        RequestStatus::Aborted => ParticipantView {
            state: ParticipantState::Quiescent,
            log: v.log.push(reply->0),
            pending: None,
            failed: v.failed + 1,
            ..v
        },
        RequestStatus::Unknown => ParticipantView {
            state: ParticipantState::Quiescent,
            pending: None,
            unknown: v.unknown + 1,
            ..v
        },
    }
}

/// Entry `i` of a participant's log stands where the protocol puts it: a
/// proposal is followed at once by one vote on the same transaction, a vote
/// follows a proposal at once, and a decision follows a vote at once.
pub open spec fn in_place(log: Seq<Entry>, i: int) -> bool {
    let e = log[i];
    if e.kind == MessageType::CoordinatorPropose {
        i + 1 < log.len() && is_vote(log[i + 1].kind) && log[i + 1].txid == e.txid && log[i
            + 1].opid == e.opid
    } else if is_vote(e.kind) {
        i >= 1 && log[i - 1].kind == MessageType::CoordinatorPropose
    } else if is_decision(e.kind) {
        i >= 1 && is_vote(log[i - 1].kind)
    } else {
        false
    }
}

/// A participant's log is a run of rounds, each a proposal, exactly one vote
/// on it and at most one decision.
pub open spec fn rounds_in_order(log: Seq<Entry>) -> bool {
    forall|i: int| 0 <= i < log.len() ==> #[trigger] in_place(log, i)
}

/// What holds of every participant between two calls.
///
/// Its log is a run of rounds, and on no transaction does it hold both a
/// commit and an abort. A vote that waits to be sent is the last thing
/// logged. The counters count the decisions in the log.
pub open spec fn consistent(v: ParticipantView) -> bool {
    &&& rounds_in_order(v.log)
    &&& agree(v.log, v.log)
    &&& v.state == ParticipantState::Voted ==> v.log.len() > 0 && is_vote(v.log.last().kind)
    &&& v.pending matches Some(ballot) ==> v.state == ParticipantState::Voted && v.log.last()
        == ballot.entry()
    &&& v.successful == count_kind(v.log, MessageType::CoordinatorCommit)
    &&& v.failed == count_kind(v.log, MessageType::CoordinatorAbort)
    &&& 2 * (v.successful + v.failed + v.unknown) + (if v.state == ParticipantState::Voted {
        2int
    } else {
        0int
    }) <= v.log.len()
}

impl View for Participant {
    type V = ParticipantView;

    closed spec fn view(&self) -> ParticipantView {
        ParticipantView {
            id: self.id as int,
            state: self.state,
            log: self.log@,
            pending: match self.ballot {
                Some(b) => Some(b@),
                None => None,
            },
            successful: self.successful as nat,
            failed: self.failed as nat,
            unknown: self.unknown as nat,
        }
    }
}

proof fn lemma_voted_consistent(v: ParticipantView, propose: Entry, success: bool)
    requires
        consistent(v),
        v.state == ParticipantState::Quiescent,
        propose.kind == MessageType::CoordinatorPropose,
    ensures
        consistent(voted(v, propose, success)),
{
    let ballot = vote_entry(v.id, propose, success);
    let mid = v.log.push(propose);
    let after = mid.push(ballot);
    assert forall|i: int| 0 <= i < after.len() implies #[trigger] in_place(after, i) by {
        if i < v.log.len() {
            assert(in_place(v.log, i));
        }
    }
    assert forall|i: int, j: int| 0 <= i < after.len() && 0 <= j < after.len() implies !opposes(
        #[trigger] after[i],
        (#[trigger] after[j]).kind,
        after[j].txid,
    ) by {
        if i < v.log.len() && j < v.log.len() {
            assert(!opposes(v.log[i], v.log[j].kind, v.log[j].txid));
        }
    }
    lemma_count_kind_push(v.log, propose, MessageType::CoordinatorCommit);
    lemma_count_kind_push(mid, ballot, MessageType::CoordinatorCommit);
    lemma_count_kind_push(v.log, propose, MessageType::CoordinatorAbort);
    lemma_count_kind_push(mid, ballot, MessageType::CoordinatorAbort);
}

proof fn lemma_decided_consistent(v: ParticipantView, reply: Option<Entry>)
    requires
        consistent(v),
        v.state == ParticipantState::Voted,
    ensures
        consistent(decided(v, reply)),
{
    let after = decided(v, reply);
    if status_of(v.log, reply) != RequestStatus::Unknown {
        let e = reply->0;
        assert(after.log == v.log.push(e));
        assert forall|i: int, j: int|
            0 <= i < after.log.len() && 0 <= j < after.log.len() implies !opposes(
            #[trigger] after.log[i],
            (#[trigger] after.log[j]).kind,
            after.log[j].txid,
        ) by {
            if i < v.log.len() && j < v.log.len() {
                assert(!opposes(v.log[i], v.log[j].kind, v.log[j].txid));
            } else if i < v.log.len() {
                assert(!opposes(v.log[i], e.kind, e.txid));
            } else if j < v.log.len() {
                assert(!opposes(v.log[j], e.kind, e.txid));
            }
        }
        assert forall|i: int| 0 <= i < after.log.len() implies #[trigger] in_place(after.log, i) by {
            if i < v.log.len() {
                assert(in_place(v.log, i));
            }
        }
        lemma_count_kind_push(v.log, e, MessageType::CoordinatorCommit);
        lemma_count_kind_push(v.log, e, MessageType::CoordinatorAbort);
    }
}

impl Participant {
    /// The participant is what its view says, and its view is consistent.
    pub closed spec fn wf(&self) -> bool {
        &&& self.log.wf()
        &&& consistent(self@)
    }

    /// The chance that a local operation succeeds.
    pub closed spec fn op_success_prob(&self) -> Probability {
        self.op_success_prob
    }

    /// The chance that the unreliable transport delivers a message.
    pub closed spec fn msg_success_prob(&self) -> Probability {
        self.msg_success_prob
    }

    /// The path of the file that holds this participant's log.
    pub closed spec fn log_path(&self) -> Seq<char> {
        self.log.path_view()
    }

    /// The text under which this participant was created.
    pub closed spec fn id_text(&self) -> Seq<char> {
        self.id_str@
    }

    /// Every well-formed participant is consistent.
    pub proof fn lemma_consistent(&self)
        requires
            self.wf(),
        ensures
            consistent(self@),
    {
    }

    /// A new participant, ready to take part in the protocol: `tx` and `rx`
    /// are its ends of the link to the coordinator, the file of its log is at
    /// `logpath`, and `r` is the flag that tells whether the simulation runs.
    pub fn new(
        i: i32,
        is: String,
        tx: Sender<ProtocolMessage>,
        rx: Receiver<ProtocolMessage>,
        logpath: String,
        r: Arc<AtomicBool>,
        f_success_prob_ops: Probability,
        f_success_prob_msg: Probability,
    ) -> (p: Participant)
        ensures
            p.wf(),
            p@ == (ParticipantView {
                id: i as int,
                state: ParticipantState::Quiescent,
                log: Seq::<Entry>::empty(),
                pending: None,
                successful: 0,
                failed: 0,
                unknown: 0,
            }),
            p.op_success_prob() == f_success_prob_ops,
            p.msg_success_prob() == f_success_prob_msg,
            p.log_path() == logpath@,
            p.id_text() == is@,
    {
        Participant {
            id: i,
            id_str: is,
            state: ParticipantState::Quiescent,
            log: OpLog::new(logpath),
            op_success_prob: f_success_prob_ops,
            msg_success_prob: f_success_prob_msg,
            tx,
            rx,
            running: r,
            ballot: None,
            successful: 0,
            failed: 0,
            unknown: 0,
        }
    }

    /// The identifier of this participant.
    pub fn id(&self) -> (i: i32)
        ensures
            i == self@.id,
    {
        self.id
    }

    /// The text under which this participant was created.
    pub fn id_str(&self) -> (text: &String)
        ensures
            text@ == self.id_text(),
    {
        &self.id_str
    }

    /// The state of this participant.
    pub fn state(&self) -> (s: ParticipantState)
        ensures
            s == self@.state,
    {
        self.state
    }

    /// How many transactions this participant saw commit.
    pub fn successful(&self) -> (n: u64)
        ensures
            n == self@.successful,
    {
        self.successful
    }

    /// How many transactions this participant saw abort.
    pub fn failed(&self) -> (n: u64)
        ensures
            n == self@.failed,
    {
        self.failed
    }

    /// How many transactions ended without a decision that this participant
    /// could make out.
    pub fn unknown(&self) -> (n: u64)
        ensures
            n == self@.unknown,
    {
        self.unknown
    }

    /// The operation log of this participant.
    pub fn log(&self) -> (log: &OpLog)
        ensures
            log@ == self@.log,
            log.path_view() == self.log_path(),
            self.wf() ==> log.wf(),
    {
        &self.log
    }

    /// Sends a message to the coordinator over the reliable transport. The
    /// result tells whether the channel took it.
    pub fn send(&mut self, pm: ProtocolMessage) -> (sent: bool)
        ensures
            *final(self) == *old(self),
    {
        transmit(&self.tx, pm)
    }

    /// Sends a message to the coordinator over the unreliable transport: a
    /// random draw decides whether the message is handed to the channel or
    /// silently dropped. A dropped message is not an error, and it is not
    /// sent again.
    pub fn send_unreliable(&mut self, pm: ProtocolMessage) -> (sent: bool)
        ensures
            *final(self) == *old(self),
            old(self).msg_success_prob().impossible() ==> !sent,
    {
        if self.msg_success_prob.sample() {
            self.send(pm)
        } else {
            false
        }
    }

    /// Logs the proposal and this participant's vote on it, and returns the
    /// vote: a vote to commit if the local operation succeeded, a vote to
    /// abort if it failed.
    pub fn vote(&mut self, propose: &ProtocolMessage, success: bool) -> (ballot: ProtocolMessage)
        requires
            old(self).wf(),
            old(self)@.state == ParticipantState::Quiescent,
            propose@.kind == MessageType::CoordinatorPropose,
        ensures
            final(self).wf(),
            final(self)@ == voted(old(self)@, propose@.entry(), success),
            ballot@ == vote_message(old(self)@, propose@.entry(), success),
            ballot@.entry() == vote_entry(old(self)@.id, propose@.entry(), success),
            final(self).op_success_prob() == old(self).op_success_prob(),
            final(self).msg_success_prob() == old(self).msg_success_prob(),
            final(self).log_path() == old(self).log_path(),
            final(self).id_text() == old(self).id_text(),
    {
        proof {
            lemma_voted_consistent(self@, propose@.entry(), success);
            self.log.lemma_len_fits();
        }
        self.log.append(propose.mtype, propose.txid, propose.senderid.clone(), propose.opid);
        let kind = if success {
            MessageType::ParticipantVoteCommit
        } else {
            MessageType::ParticipantVoteAbort
        };
        let uid = self.successful + self.failed + self.unknown;
        let ballot = ProtocolMessage::generate(
            kind,
            uid,
            propose.txid,
            numbered("participant_", self.id),
            propose.opid,
        );
        self.log.append(ballot.mtype, ballot.txid, ballot.senderid.clone(), ballot.opid);
        self.state = ParticipantState::Voted;
        ballot
    }

    /// Applies what came in answer to the vote. A commit or an abort is
    /// logged and counted, unless the log already holds the opposite
    /// decision on the same transaction. That, any other message, or a link
    /// that closed before an answer came (`None`), counts as unknown and is
    /// not logged.
    pub fn apply_decision(&mut self, reply: &Option<ProtocolMessage>) -> (status: RequestStatus)
        requires
            old(self).wf(),
            old(self)@.state == ParticipantState::Voted,
        ensures
            final(self).wf(),
            final(self)@ == decided(
                old(self)@,
                entry_of(*reply),
            ),
            status == status_of(old(self)@.log, entry_of(*reply)),
            final(self).op_success_prob() == old(self).op_success_prob(),
            final(self).msg_success_prob() == old(self).msg_success_prob(),
            final(self).log_path() == old(self).log_path(),
            final(self).id_text() == old(self).id_text(),
    {
        let ghost answer: Option<Entry> = entry_of(*reply);
        proof {
            lemma_decided_consistent(self@, answer);
            self.log.lemma_len_fits();
        }
        self.state = ParticipantState::Quiescent;
        self.ballot = None;
        match reply {
            Some(m) => {
                if self.log.holds_opposite(m.mtype, m.txid) {
                    self.unknown = self.unknown + 1;
                    RequestStatus::Unknown
                } else if m.mtype == MessageType::CoordinatorCommit {
                    self.log.append(m.mtype, m.txid, m.senderid.clone(), m.opid);
                    self.successful = self.successful + 1;
                    RequestStatus::Committed
                } else if m.mtype == MessageType::CoordinatorAbort {
                    self.log.append(m.mtype, m.txid, m.senderid.clone(), m.opid);
                    self.failed = self.failed + 1;
                    RequestStatus::Aborted
                } else {
                    self.unknown = self.unknown + 1;
                    RequestStatus::Unknown
                }
            },
            None => {
                self.unknown = self.unknown + 1;
                RequestStatus::Unknown
            },
        }
    }

    /// Performs the local operation that `propose` asks for, which succeeds
    /// with the configured chance, logs the proposal and the vote, and keeps
    /// the vote to be sent: a vote to commit if the operation succeeded, a
    /// vote to abort if it failed.
    pub fn cast_vote(&mut self, propose: &ProtocolMessage)
        requires
            old(self).wf(),
            old(self)@.state == ParticipantState::Quiescent,
            propose@.kind == MessageType::CoordinatorPropose,
        ensures
            final(self).wf(),
            final(self).op_success_prob() == old(self).op_success_prob(),
            final(self).msg_success_prob() == old(self).msg_success_prob(),
            final(self).log_path() == old(self).log_path(),
            final(self).id_text() == old(self).id_text(),
            exists|success: bool|
                {
                    &&& old(self).op_success_prob().certain() ==> success
                    &&& old(self).op_success_prob().impossible() ==> !success
                    &&& #[trigger] stashed(
                        voted(old(self)@, propose@.entry(), success),
                        vote_message(old(self)@, propose@.entry(), success),
                    ) == final(self)@
                },
    {
        let success = self.op_success_prob.sample();
        let ballot = self.vote(propose, success);
        self.ballot = Some(ballot);
        assert(stashed(
            voted(old(self)@, propose@.entry(), success),
            vote_message(old(self)@, propose@.entry(), success),
        ) == self@);
    }

    /// Sends the vote that waits to be sent, once (over the reliable
    /// transport if messages always arrive, else over the unreliable one),
    /// then waits for the answer and applies it. A vote that is dropped is
    /// not sent again.
    pub fn await_decision(&mut self) -> (status: RequestStatus)
        requires
            old(self).wf(),
            old(self)@.state == ParticipantState::Voted,
        ensures
            final(self).wf(),
            final(self).op_success_prob() == old(self).op_success_prob(),
            final(self).msg_success_prob() == old(self).msg_success_prob(),
            final(self).log_path() == old(self).log_path(),
            final(self).id_text() == old(self).id_text(),
            exists|reply: Option<Entry>|
                #[trigger] decided(old(self)@, reply) == final(self)@ && status == status_of(
                    old(self)@.log,
                    reply,
                ),
    {
        let ballot = self.ballot.take();
        match ballot {
            Some(b) => {
                let _sent = if self.msg_success_prob.is_certain() {
                    self.send(b)
                } else {
                    self.send_unreliable(b)
                };
            },
            None => {},
        }
        let reply = message_of(receive(&self.rx));
        let status = self.apply_decision(&reply);
        assert(decided(old(self)@, entry_of(reply)) == self@);
        status
    }

    /// Handles one message of the coordinator from beginning to end.
    ///
    /// On a proposal the participant performs its local operation, logs the
    /// proposal and its vote, sends the vote, waits for the answer and
    /// applies it. On the exit message it clears the shared `running` flag.
    /// Any other message is ignored. The result tells whether the
    /// transaction committed.
    pub fn perform_operation(&mut self, request: &Option<ProtocolMessage>) -> (committed: bool)
        requires
            old(self).wf(),
            old(self)@.state == ParticipantState::Quiescent,
            request.is_some(),
        ensures
            final(self).wf(),
            final(self)@.state == ParticipantState::Quiescent,
            final(self).op_success_prob() == old(self).op_success_prob(),
            final(self).msg_success_prob() == old(self).msg_success_prob(),
            final(self).log_path() == old(self).log_path(),
            final(self).id_text() == old(self).id_text(),
            request.unwrap()@.kind != MessageType::CoordinatorPropose ==> final(self)@ == old(self)@
                && !committed,
            request.unwrap()@.kind == MessageType::CoordinatorPropose ==> exists|
                success: bool,
                reply: Option<Entry>,
            |
                {
                    &&& old(self).op_success_prob().certain() ==> success
                    &&& old(self).op_success_prob().impossible() ==> !success
                    &&& #[trigger] decided(
                        voted(old(self)@, request.unwrap()@.entry(), success),
                        reply,
                    ) == final(self)@
                    &&& committed == (status_of(
                        voted(old(self)@, request.unwrap()@.entry(), success).log,
                        reply,
                    ) == RequestStatus::Committed)
                },
    {
        let pm = request.as_ref().unwrap();
        match pm.mtype {
            MessageType::CoordinatorPropose => {
                self.cast_vote(pm);
                let ghost cast = self@;
                let ghost success = choose|success: bool|
                    {
                        &&& old(self).op_success_prob().certain() ==> success
                        &&& old(self).op_success_prob().impossible() ==> !success
                        &&& #[trigger] stashed(
                            voted(old(self)@, pm@.entry(), success),
                            vote_message(old(self)@, pm@.entry(), success),
                        ) == cast
                    };
                let status = self.await_decision();
                let ghost reply = choose|reply: Option<Entry>|
                    #[trigger] decided(cast, reply) == self@ && status == status_of(cast.log, reply);
                assert(decided(voted(old(self)@, pm@.entry(), success), reply) == self@);
                status == RequestStatus::Committed
            },
            MessageType::CoordinatorExit => {
                clear(&self.running);
                false
            },
            _ => false,
        }
    }

    /// The status line of this participant: its name and how many
    /// transactions it saw commit, abort and end unknown.
    pub fn report_status(&mut self) -> (line: String)
        ensures
            *final(self) == *old(self),
            line@ == status_line(
                participant_name(old(self)@.id),
                old(self)@.successful,
                old(self)@.failed,
                old(self)@.unknown,
            ),
    {
        let name = numbered("participant_", self.id);
        format_status(name.as_str(), self.successful, self.failed, self.unknown)
    }

    /// Looks once at the shared `running` flag and tells whether the signal
    /// to exit has come. The caller waits by asking again.
    pub fn wait_for_exit_signal(&mut self) -> (stopped: bool)
        ensures
            *final(self) == *old(self),
    {
        !is_set(&self.running)
    }

    /// What a participant between two transactions does with what a turn
    /// gave it. `got` is what it received, or `None` if the simulation had
    /// stopped and it did not wait for anything. The result tells whether
    /// there is more to do.
    ///
    /// On a proposal it casts its vote, on the exit message it clears the
    /// shared `running` flag, and any other message it ignores; in each case
    /// there is more to do. There is nothing more to do once the simulation
    /// has stopped or the coordinator's end of the link is gone.
    pub fn react(&mut self, got: Option<Received>) -> (more: bool)
        requires
            old(self).wf(),
            old(self)@.state == ParticipantState::Quiescent,
        ensures
            final(self).wf(),
            final(self).op_success_prob() == old(self).op_success_prob(),
            final(self).msg_success_prob() == old(self).msg_success_prob(),
            final(self).log_path() == old(self).log_path(),
            final(self).id_text() == old(self).id_text(),
            more == (got matches Some(Received::Message(_))),
            match got {
                Some(Received::Message(m)) => if m@.kind == MessageType::CoordinatorPropose {
                    exists|success: bool|
                        {
                            &&& old(self).op_success_prob().certain() ==> success
                            &&& old(self).op_success_prob().impossible() ==> !success
                            &&& #[trigger] stashed(
                                voted(old(self)@, m@.entry(), success),
                                vote_message(old(self)@, m@.entry(), success),
                            ) == final(self)@
                        }
                } else {
                    final(self)@ == old(self)@
                },
                _ => final(self)@ == old(self)@,
            },
    {
        match got {
            Some(Received::Message(pm)) => {
                match pm.mtype {
                    MessageType::CoordinatorPropose => {
                        self.cast_vote(&pm);
                    },
                    MessageType::CoordinatorExit => {
                        clear(&self.running);
                    },
                    _ => {},
                }
                true
            },
            _ => false,
        }
    }

    /// One turn of the participant's side of the protocol. The result tells
    /// whether there is more to do.
    ///
    /// A participant that has cast a vote sends it, waits for the answer and
    /// applies it. Otherwise, while the simulation runs, it waits for the
    /// next message of the coordinator and reacts to it. There is nothing
    /// more to do once the simulation has stopped or the coordinator's end
    /// of the link is gone.
    ///
    /// A vote goes out in the turn after the one that logged it, so that the
    /// caller can store the log in between.
    pub fn protocol(&mut self) -> (more: bool)
        requires
            old(self).wf(),
        ensures
            final(self).wf(),
            final(self).op_success_prob() == old(self).op_success_prob(),
            final(self).msg_success_prob() == old(self).msg_success_prob(),
            final(self).log_path() == old(self).log_path(),
            final(self).id_text() == old(self).id_text(),
            !more ==> old(self)@.state == ParticipantState::Quiescent && final(self)@ == old(self)@,
            old(self)@.state == ParticipantState::Voted ==> more && final(self)@.state
                == ParticipantState::Quiescent && exists|reply: Option<Entry>|
                #[trigger] decided(old(self)@, reply) == final(self)@,
            old(self)@.state == ParticipantState::Quiescent ==> final(self)@ == old(self)@
                || more && exists|propose: Entry, success: bool|
                {
                    &&& propose.kind == MessageType::CoordinatorPropose
                    &&& old(self).op_success_prob().certain() ==> success
                    &&& old(self).op_success_prob().impossible() ==> !success
                    &&& #[trigger] stashed(
                        voted(old(self)@, propose, success),
                        vote_message(old(self)@, propose, success),
                    ) == final(self)@
                },
    {
        match self.state {
            ParticipantState::Voted => {
                let _status = self.await_decision();
                true
            },
            ParticipantState::Quiescent => {
                let got = if is_set(&self.running) {
                    Some(receive(&self.rx))
                } else {
                    None
                };
                self.react(got)
            },
        }
    }
}

} // verus!
