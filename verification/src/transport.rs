//! The in-process transport between the coordinator and one peer, and the
//! flags that all actors share.
//!
//! A duplex link is a pair of `std::sync::mpsc` channels, one in each
//! direction. Within one channel messages arrive in the order in which they
//! were sent.

use crate::message::ProtocolMessage;
use std::sync::atomic::AtomicBool;
use std::sync::atomic::AtomicI32;
use std::sync::mpsc::Receiver;
use std::sync::mpsc::Sender;
use std::sync::Arc;
use vstd::prelude::*;

verus! {

/// The sending half of a `std::sync::mpsc` channel. Nothing is known of what
/// is inside it.
#[verifier::external_type_specification]
#[verifier::external_body]
#[verifier::reject_recursive_types(T)]
pub struct ExSender<T>(std::sync::mpsc::Sender<T>);

/// The receiving half of a `std::sync::mpsc` channel. Nothing is known of
/// what is inside it.
#[verifier::external_type_specification]
#[verifier::external_body]
#[verifier::reject_recursive_types(T)]
pub struct ExReceiver<T>(std::sync::mpsc::Receiver<T>);

/// `std::sync::mpsc::channel` makes a new channel and returns its two
/// halves. Nothing is claimed of them.
pub assume_specification<T>[ std::sync::mpsc::channel::<T> ]() -> (ends: (Sender<T>, Receiver<T>));

/// What one receive gave: the next message in arrival order, nothing within
/// the deadline, or the news that the peer's sending half is gone.
#[derive(Debug)]
pub enum Received {
    Message(ProtocolMessage),
    TimedOut,
    Disconnected,
}

/// How long the coordinator waits on one client endpoint while it polls for
/// requests, in milliseconds.
pub const REQUEST_POLL_MILLIS: u64 = 10;

/// How often the coordinator goes round all clients before it reports that
/// no request was found.
pub const REQUEST_POLL_ROUNDS: u32 = 10;

/// How long the coordinator waits for the vote of one participant, in
/// milliseconds.
pub const VOTE_TIMEOUT_MILLIS: u64 = 500;

/// How often the coordinator offers one message to the unreliable transport
/// before it gives the peer up.
pub const MAX_SEND_ATTEMPTS: u32 = 1_000_000;

/// `Sender::send`: hands `pm` to the channel. The result tells whether the
/// channel took it; it fails only when the receiving half is gone. Which of
/// the two happens is not stated.
#[verifier::external_body]
pub(crate) fn transmit(tx: &Sender<ProtocolMessage>, pm: ProtocolMessage) -> (sent: bool) {
    tx.send(pm).is_ok()
}

/// `Receiver::recv`: blocks until a message arrives or every sending half is
/// gone. What arrives is not stated: it depends on the peer.
#[verifier::external_body]
pub(crate) fn receive(rx: &Receiver<ProtocolMessage>) -> (got: Received)
    ensures
        !(got is TimedOut),
{
    match rx.recv() {
        Ok(pm) => Received::Message(pm),
        Err(std::sync::mpsc::RecvError) => Received::Disconnected,
    }
}

/// `Receiver::recv_timeout` with a deadline of `millis` milliseconds. What
/// arrives is not stated: it depends on the peer and on the clock.
#[verifier::external_body]
pub(crate) fn receive_within(rx: &Receiver<ProtocolMessage>, millis: u64) -> (got: Received) {
    match rx.recv_timeout(std::time::Duration::from_millis(millis)) {
        Ok(pm) => Received::Message(pm),
        Err(std::sync::mpsc::RecvTimeoutError::Timeout) => Received::TimedOut,
        Err(std::sync::mpsc::RecvTimeoutError::Disconnected) => Received::Disconnected,
    }
}

/// Reads the shared `running` flag. Another actor may change it at any time,
/// so two reads may differ.
pub(crate) fn is_set(flag: &Arc<AtomicBool>) -> bool {
    flag.load(std::sync::atomic::Ordering::SeqCst)
}

/// Clears the shared `running` flag for all actors.
pub(crate) fn clear(flag: &Arc<AtomicBool>) {
    flag.store(false, std::sync::atomic::Ordering::SeqCst)
}

/// Takes the next transaction identifier from the shared counter.
pub(crate) fn next_txid(counter: &Arc<AtomicI32>) -> i32 {
    counter.fetch_add(1, std::sync::atomic::Ordering::SeqCst)
}

/// The message that a receive gave, if it gave one.
pub fn message_of(got: Received) -> (m: Option<ProtocolMessage>)
    ensures
        m == match got {
            Received::Message(pm) => Some(pm),
            _ => None,
        },
{
    match got {
        Received::Message(pm) => Some(pm),
        _ => None,
    }
}

} // verus!
