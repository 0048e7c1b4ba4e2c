//! A client: it issues a fixed number of transaction requests, one after the
//! other, and counts how each of them ended.

use crate::message::Message;
use crate::message::MessageType;
use crate::message::ProtocolMessage;
use crate::text::format_status;
use crate::text::numbered;
use crate::text::signed_decimal;
use crate::text::status_line;
use crate::transport::clear;
use crate::transport::is_set;
use crate::transport::message_of;
use crate::transport::next_txid;
use crate::transport::receive;
use crate::transport::transmit;
use std::sync::atomic::AtomicBool;
use std::sync::atomic::AtomicI32;
use std::sync::mpsc::Receiver;
use std::sync::mpsc::Sender;
use std::sync::Arc;
use vstd::prelude::*;

verus! {

/// What a client is, as far as the protocol is concerned.
pub struct ClientView {
    pub id: int,
    /// The operation identifier of the next request, which is also the
    /// number of requests issued so far.
    pub opid: int,
    pub successful: nat,
    pub failed: nat,
    pub unknown: nat,
    /// Whether the outbound endpoint is still open.
    pub open: bool,
}

impl ClientView {
    /// The number of requests whose outcome has been counted.
    pub open spec fn tally(self) -> nat {
        self.successful + self.failed + self.unknown
    }
}

/// Why a client could not go on.
#[derive(Clone, Copy, Debug, PartialEq, Eq, Structural)]
pub enum ClientError {
    /// The coordinator did not take a request: its end of the link is gone,
    /// or the client has closed its own.
    SendFailed,
}

/// One client, with its own ends of the link to the coordinator.
pub struct Client {
    id: i32,
    id_str: String,
    tx: Option<Sender<ProtocolMessage>>,
    rx: Receiver<ProtocolMessage>,
    running: Arc<AtomicBool>,
    txids: Arc<AtomicI32>,
    successful: u64,
    failed: u64,
    unknown: u64,
    opid: i32,
}

/// The name under which client `id` signs its requests.
pub open spec fn client_name(id: int) -> Seq<char> {
    "Client_"@ + signed_decimal(id)
}

/// The request that a client issues next, under the transaction identifier
/// `txid`.
pub open spec fn request_of(v: ClientView, txid: int) -> Message {
    Message {
        kind: MessageType::ClientRequest,
        uid: v.opid as nat,
        txid,
        sender: client_name(v.id),
        opid: v.opid,
    }
}

/// The client after it has issued one more request.
pub open spec fn issued(v: ClientView) -> ClientView {
    ClientView { opid: v.opid + 1, ..v }
}

/// The client after a message of kind `kind` came in answer to its request:
/// a commit counts as successful, an abort as failed, the exit message is
/// not counted, and anything else counts as unknown.
pub open spec fn recorded(v: ClientView, kind: MessageType) -> ClientView {
    if kind == MessageType::ClientResultCommit {
        ClientView { successful: v.successful + 1, ..v }
    } else if kind == MessageType::ClientResultAbort {
        ClientView { failed: v.failed + 1, ..v }
    } else if kind == MessageType::CoordinatorExit {
        v
    } else {
        ClientView { unknown: v.unknown + 1, ..v }
    }
}

/// What holds of every client between two calls: it has counted no more
/// outcomes than it has issued requests.
pub open spec fn consistent(v: ClientView) -> bool {
    0 <= v.tally() <= v.opid
}

impl View for Client {
    type V = ClientView;

    closed spec fn view(&self) -> ClientView {
        ClientView {
            id: self.id as int,
            opid: self.opid as int,
            successful: self.successful as nat,
            failed: self.failed as nat,
            unknown: self.unknown as nat,
            open: self.tx.is_some(),
        }
    }
}

impl Client {
    /// The client is what its view says, and its view is consistent.
    pub closed spec fn wf(&self) -> bool {
        consistent(self@)
    }

    /// The text under which this client was created.
    pub closed spec fn id_text(&self) -> Seq<char> {
        self.id_str@
    }

    /// Every well-formed client is consistent.
    pub proof fn lemma_consistent(&self)
        requires
            self.wf(),
        ensures
            consistent(self@),
    {
    }

    /// A new client, ready to run the protocol: `tx` and `rx` are its ends
    /// of the link to the coordinator, `r` is the flag that tells whether
    /// the simulation runs, and `txids` is the counter from which all
    /// clients take their transaction identifiers.
    pub fn new(
        i: i32,
        is: String,
        tx: Sender<ProtocolMessage>,
        rx: Receiver<ProtocolMessage>,
        r: Arc<AtomicBool>,
        txids: Arc<AtomicI32>,
    ) -> (c: Client)
        ensures
            c.wf(),
            c@ == (ClientView { id: i as int, opid: 0, successful: 0, failed: 0, unknown: 0, open: true }),
            c.id_text() == is@,
    {
        Client {
            id: i,
            id_str: is,
            tx: Some(tx),
            rx,
            running: r,
            txids,
            successful: 0,
            failed: 0,
            unknown: 0,
            opid: 0,
        }
    }

    /// The identifier of this client.
    pub fn id(&self) -> (i: i32)
        ensures
            i == self@.id,
    {
        self.id
    }

    /// The text under which this client was created.
    pub fn id_str(&self) -> (text: &String)
        ensures
            text@ == self.id_text(),
    {
        &self.id_str
    }

    /// The operation identifier of the next request.
    pub fn opid(&self) -> (n: i32)
        ensures
            n == self@.opid,
    {
        self.opid
    }

    /// How many requests of this client committed.
    pub fn successful(&self) -> (n: u64)
        ensures
            n == self@.successful,
    {
        self.successful
    }

    /// How many requests of this client aborted.
    pub fn failed(&self) -> (n: u64)
        ensures
            n == self@.failed,
    {
        self.failed
    }

    /// How many requests of this client were answered by something other
    /// than a result.
    pub fn unknown(&self) -> (n: u64)
        ensures
            n == self@.unknown,
    {
        self.unknown
    }

    /// Whether the outbound endpoint is still open.
    pub fn is_open(&self) -> (open: bool)
        ensures
            open == self@.open,
    {
        self.tx.is_some()
    }

    /// Looks once at the shared `running` flag and tells whether the signal
    /// to exit has come. The caller waits by asking again.
    pub fn wait_for_exit_signal(&mut self) -> (stopped: bool)
        ensures
            *final(self) == *old(self),
    {
        !is_set(&self.running)
    }

    /// Builds the next request under the transaction identifier `txid` and
    /// moves on to the next operation identifier.
    pub fn next_request(&mut self, txid: i32) -> (pm: ProtocolMessage)
        requires
            old(self).wf(),
            old(self)@.opid < i32::MAX,
        ensures
            final(self).wf(),
            final(self).id_text() == old(self).id_text(),
            final(self)@ == issued(old(self)@),
            pm@ == request_of(old(self)@, txid as int),
    {
        let request_no = self.opid;
        self.opid = self.opid + 1;
        ProtocolMessage::generate(
            MessageType::ClientRequest,
            request_no as u64,
            txid,
            numbered("Client_", self.id),
            request_no,
        )
    }

    /// Sends the next request to the coordinator, under a fresh transaction
    /// identifier from the shared counter. The request counts as issued
    /// whether or not the coordinator took it.
    pub fn send_next_operation(&mut self) -> (sent: Result<(), ClientError>)
        requires
            old(self).wf(),
            old(self)@.opid < i32::MAX,
        ensures
            final(self).wf(),
            final(self).id_text() == old(self).id_text(),
            final(self)@ == issued(old(self)@),
            !old(self)@.open ==> sent.is_err(),
    {
        let txid = next_txid(&self.txids);
        let pm = self.next_request(txid);
        let taken = match &self.tx {
            Some(tx) => transmit(tx, pm),
            None => false,
        };
        if taken {
            Ok(())
        } else {
            Err(ClientError::SendFailed)
        }
    }

    /// Counts the outcome that a message of kind `kind` reports. The result
    /// tells whether the message was the coordinator's exit message.
    pub fn record_result(&mut self, kind: MessageType) -> (exit: bool)
        requires
            old(self).wf(),
            old(self)@.tally() < old(self)@.opid,
        ensures
            final(self).wf(),
            final(self).id_text() == old(self).id_text(),
            final(self)@ == recorded(old(self)@, kind),
            exit == (kind == MessageType::CoordinatorExit),
    {
        match kind {
            MessageType::ClientResultCommit => {
                self.successful = self.successful + 1;
                false
            },
            MessageType::ClientResultAbort => {
                self.failed = self.failed + 1;
                false
            },
            MessageType::CoordinatorExit => true,
            _ => {
                self.unknown = self.unknown + 1;
                false
            },
        }
    }

    /// Waits for the coordinator's answer to the last request and counts it.
    /// The exit message clears the shared `running` flag instead. If the
    /// coordinator's end of the link is gone, nothing is counted.
    pub fn recv_result(&mut self)
        requires
            old(self).wf(),
            old(self)@.tally() < old(self)@.opid,
        ensures
            final(self).wf(),
            final(self).id_text() == old(self).id_text(),
            final(self)@ == old(self)@ || exists|kind: MessageType| #[trigger]
                recorded(old(self)@, kind) == final(self)@,
    {
        match message_of(receive(&self.rx)) {
            Some(result) => {
                let exit = self.record_result(result.mtype);
                if exit {
                    clear(&self.running);
                }
            },
            None => {},
        }
    }

    /// The status line of this client: its name and how many of its
    /// requests committed, aborted and ended unknown.
    pub fn report_status(&mut self) -> (line: String)
        ensures
            *final(self) == *old(self),
            line@ == status_line(
                client_name(old(self)@.id),
                old(self)@.successful,
                old(self)@.failed,
                old(self)@.unknown,
            ),
    {
        let name = numbered("Client_", self.id);
        format_status(name.as_str(), self.successful, self.failed, self.unknown)
    }

    /// Whether the workload goes on after one step. `running` is the shared
    /// flag as it was read before the step, and `sent` tells how the request
    /// of the step went. The workload goes on only if the simulation ran and
    /// the coordinator took the request.
    pub fn goes_on(running: bool, sent: &Result<(), ClientError>) -> (on: bool)
        ensures
            on == (running && sent.is_ok()),
    {
        running && sent.is_ok()
    }

    /// Runs the client's workload: up to `n_requests` requests, each sent
    /// only after the answer to the one before it has come, and none once
    /// the simulation has stopped. Then the outbound endpoint is closed.
    ///
    /// The workload ends early with an error if the coordinator does not
    /// take a request; that request counts as issued. A workload of no
    /// requests cannot fail.
    pub fn protocol(&mut self, n_requests: i32) -> (done: Result<(), ClientError>)
        requires
            old(self).wf(),
            old(self)@.opid + n_requests <= i32::MAX,
        ensures
            final(self).wf(),
            final(self).id_text() == old(self).id_text(),
            !final(self)@.open,
            final(self)@.id == old(self)@.id,
            old(self)@.opid <= final(self)@.opid,
            final(self)@.opid <= old(self)@.opid + n_requests || final(self)@.opid == old(self)@.opid,
            old(self)@.tally() <= final(self)@.tally(),
            final(self)@.tally() - old(self)@.tally() <= final(self)@.opid - old(self)@.opid,
            done.is_err() ==> final(self)@.opid > old(self)@.opid && final(self)@.tally() - old(self)@.tally() < final(self)@.opid - old(self)@.opid,
            n_requests <= 0 ==> done.is_ok() && final(self)@.opid == old(self)@.opid,
            old(self)@.successful <= final(self)@.successful,
            old(self)@.failed <= final(self)@.failed,
            old(self)@.unknown <= final(self)@.unknown,
            !old(self)@.open ==> final(self)@.opid <= old(self)@.opid + 1,
            !old(self)@.open && final(self)@.opid > old(self)@.opid ==> done.is_err(),
    {
        let mut done: Result<(), ClientError> = Ok(());
        let mut i: i32 = 0;
        let mut going = true;
        while going && i < n_requests
            invariant
                self.wf(),
                self.id_text() == old(self).id_text(),
                0 <= i,
                i <= n_requests || i == 0,
                self@.id == old(self)@.id,
                self@.open == old(self)@.open,
                self@.opid == old(self)@.opid + i,
                old(self)@.opid + n_requests <= i32::MAX,
                old(self)@.tally() <= self@.tally(),
                self@.tally() - old(self)@.tally() <= i,
                done.is_err() ==> !going && i > 0 && self@.tally() - old(self)@.tally() < i,
                old(self)@.successful <= self@.successful,
                old(self)@.failed <= self@.failed,
                old(self)@.unknown <= self@.unknown,
                !old(self)@.open && i > 0 ==> done.is_err(),
                !old(self)@.open ==> i <= 1,
            decreases (if going { 1int } else { 0int }) + n_requests - i,
        {
            let running = is_set(&self.running);
            let mut sent: Result<(), ClientError> = Ok(());
            if running {
                sent = self.send_next_operation();
                i = i + 1;
            }
            going = Self::goes_on(running, &sent);
            if going {
                self.recv_result();
            }
            match sent {
                Ok(_) => {},
                Err(e) => {
                    done = Err(e);
                },
            }
        }
        self.tx = None;
        done
    }
}

} // verus!
