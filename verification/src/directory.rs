//! The coordinator's directory of registered peers: each peer's name and
//! the coordinator's ends of the link to it, in the order of registration.

use crate::message::ProtocolMessage;
use std::sync::mpsc::Receiver;
use std::sync::mpsc::Sender;
use vstd::prelude::*;

verus! {

/// One registered peer.
pub struct Peer {
    pub name: String,
    pub tx: Sender<ProtocolMessage>,
    pub rx: Receiver<ProtocolMessage>,
}

/// The names of the peers, in the order of registration.
pub open spec fn names(peers: Seq<Peer>) -> Seq<Seq<char>> {
    Seq::new(peers.len(), |i: int| peers[i].name@)
}

/// No name occurs twice.
pub open spec fn distinct(names: Seq<Seq<char>>) -> bool {
    forall|i: int, j: int| 0 <= i < j < names.len() ==> names[i] != names[j]
}

/// The names after `name` has registered: a name that is already there
/// keeps its place, a new one goes to the end.
pub open spec fn registered(names: Seq<Seq<char>>, name: Seq<char>) -> Seq<Seq<char>> {
    if names.contains(name) {
        names
    } else {
        names.push(name)
    }
}

/// Where the peer called `name` stands in the directory.
pub fn position(peers: &Vec<Peer>, name: &String) -> (at: Option<usize>)
    ensures
        at matches Some(i) ==> i < peers@.len() && names(peers@)[i as int] == name@,
        at.is_some() <==> names(peers@).contains(name@),
{
    let mut i: usize = 0;
    while i < peers.len()
        invariant
            i <= peers@.len(),
            forall|j: int| 0 <= j < i ==> names(peers@)[j] != name@,
        decreases peers@.len() - i,
    {
        if peers[i].name == *name {
            assert(names(peers@)[i as int] == name@);
            return Some(i);
        }
        i += 1;
    }
    None
}

/// Registers `peer`. A peer that registers under a name that is already
/// taken replaces the earlier one and takes its place.
pub fn register(peers: &mut Vec<Peer>, peer: Peer)
    requires
        distinct(names(old(peers)@)),
    ensures
        names(final(peers)@) == registered(names(old(peers)@), peer.name@),
        distinct(names(final(peers)@)),
{
    let at = position(peers, &peer.name);
    match at {
        Some(i) => {
            peers.set(i, peer);
            assert(names(peers@) =~= names(old(peers)@));
        },
        None => {
            peers.push(peer);
            assert(names(peers@) =~= names(old(peers)@).push(peer.name@));
        },
    }
}

} // verus!
