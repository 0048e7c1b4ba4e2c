//! Protocol messages: the tagged records that actors exchange and log.

use vstd::prelude::*;

verus! {

/// The kind of event a protocol message describes.
#[derive(Clone, Copy, Debug, PartialEq, Eq, Structural)]
pub enum MessageType {
    /// A client asks the coordinator to run a transaction.
    ClientRequest,
    /// The coordinator asks the participants to vote.
    CoordinatorPropose,
    /// A participant votes to commit.
    ParticipantVoteCommit,
    /// A participant votes to abort.
    ParticipantVoteAbort,
    /// The coordinator tells the participants that the transaction commits.
    CoordinatorCommit,
    /// The coordinator tells the participants that the transaction aborts.
    CoordinatorAbort,
    /// The coordinator tells the client that its transaction committed.
    ClientResultCommit,
    /// The coordinator tells the client that its transaction aborted.
    ClientResultAbort,
    /// The coordinator tells everybody that the simulation is over.
    CoordinatorExit,
}

/// The tag under which a kind is written to a log file.
pub open spec fn tag_of(kind: MessageType) -> u8 {
    match kind {
        MessageType::ClientRequest => 0,
        MessageType::CoordinatorPropose => 1,
        MessageType::ParticipantVoteCommit => 2,
        MessageType::ParticipantVoteAbort => 3,
        MessageType::CoordinatorCommit => 4,
        MessageType::CoordinatorAbort => 5,
        MessageType::ClientResultCommit => 6,
        MessageType::ClientResultAbort => 7,
        MessageType::CoordinatorExit => 8,
    }
}

/// A kind is a vote of a participant.
pub open spec fn is_vote(kind: MessageType) -> bool {
    kind == MessageType::ParticipantVoteCommit || kind == MessageType::ParticipantVoteAbort
}

/// A kind is a decision of the coordinator.
pub open spec fn is_decision(kind: MessageType) -> bool {
    kind == MessageType::CoordinatorCommit || kind == MessageType::CoordinatorAbort
}

impl MessageType {
    /// Whether this kind is a decision of the coordinator.
    pub fn decides(self) -> (b: bool)
        ensures
            b == is_decision(self),
    {
        match self {
            MessageType::CoordinatorCommit => true,
            MessageType::CoordinatorAbort => true,
            _ => false,
        }
    }

    /// The tag under which this kind is written to a log file.
    pub fn tag(self) -> (t: u8)
        ensures
            t == tag_of(self),
    {
        match self {
            MessageType::ClientRequest => 0,
            MessageType::CoordinatorPropose => 1,
            MessageType::ParticipantVoteCommit => 2,
            MessageType::ParticipantVoteAbort => 3,
            MessageType::CoordinatorCommit => 4,
            MessageType::CoordinatorAbort => 5,
            MessageType::ClientResultCommit => 6,
            MessageType::ClientResultAbort => 7,
            MessageType::CoordinatorExit => 8,
        }
    }

    /// The kind that is written under the tag `t`, if there is one.
    pub fn from_tag(t: u8) -> (kind: Option<MessageType>)
        ensures
            kind matches Some(k) ==> tag_of(k) == t,
            kind is None ==> forall|k: MessageType| tag_of(k) != t,
    {
        if t == 0 {
            Some(MessageType::ClientRequest)
        } else if t == 1 {
            Some(MessageType::CoordinatorPropose)
        } else if t == 2 {
            Some(MessageType::ParticipantVoteCommit)
        } else if t == 3 {
            Some(MessageType::ParticipantVoteAbort)
        } else if t == 4 {
            Some(MessageType::CoordinatorCommit)
        } else if t == 5 {
            Some(MessageType::CoordinatorAbort)
        } else if t == 6 {
            Some(MessageType::ClientResultCommit)
        } else if t == 7 {
            Some(MessageType::ClientResultAbort)
        } else if t == 8 {
            Some(MessageType::CoordinatorExit)
        } else {
            None
        }
    }
}

/// The outcome of a transaction as one actor has seen it.
#[derive(Clone, Copy, Debug, PartialEq, Eq, Structural)]
pub enum RequestStatus {
    Committed,
    Aborted,
    Unknown,
}

/// The transaction identifier of the final exit broadcast.
pub const EXIT_TXID: i32 = -1;

/// The operation identifier of the final exit broadcast.
pub const EXIT_OPID: i32 = -1;

/// The mathematical content of a protocol message.
pub struct Message {
    pub kind: MessageType,
    pub uid: nat,
    pub txid: int,
    pub sender: Seq<char>,
    pub opid: int,
}

/// The part of a message that the log keeps: everything but the identifier
/// that tells two transmissions apart.
pub struct Entry {
    pub kind: MessageType,
    pub txid: int,
    pub sender: Seq<char>,
    pub opid: int,
}

impl Message {
    /// What is logged of this message.
    pub open spec fn entry(self) -> Entry {
        Entry { kind: self.kind, txid: self.txid, sender: self.sender, opid: self.opid }
    }
}

/// One protocol message. Messages are values: sending one hands it over.
///
/// `uid` counts the messages of one originator, so `senderid` and `uid`
/// together tell any two generated messages apart.
#[derive(Debug, PartialEq, Eq)]
pub struct ProtocolMessage {
    pub mtype: MessageType,
    pub uid: u64,
    pub txid: i32,
    pub senderid: String,
    pub opid: i32,
}

impl View for ProtocolMessage {
    type V = Message;

    open spec fn view(&self) -> Message {
        Message {
            kind: self.mtype,
            uid: self.uid as nat,
            txid: self.txid as int,
            sender: self.senderid@,
            opid: self.opid as int,
        }
    }
}

impl Clone for ProtocolMessage {
    fn clone(&self) -> (res: Self)
        ensures
            res == *self,
    {
        ProtocolMessage {
            mtype: self.mtype,
            uid: self.uid,
            txid: self.txid,
            senderid: self.senderid.clone(),
            opid: self.opid,
        }
    }
}

/// What is logged of a message that may or may not have come.
pub open spec fn entry_of(m: Option<ProtocolMessage>) -> Option<Entry> {
    match m {
        Some(pm) => Some(pm@.entry()),
        None => None,
    }
}

impl ProtocolMessage {
    /// Builds a message from its five parts.
    pub fn generate(mtype: MessageType, uid: u64, txid: i32, senderid: String, opid: i32) -> (pm:
        ProtocolMessage)
        ensures
            pm@ == (Message {
                kind: mtype,
                uid: uid as nat,
                txid: txid as int,
                sender: senderid@,
                opid: opid as int,
            }),
    {
        ProtocolMessage { mtype, uid, txid, senderid, opid }
    }
}

} // verus!
