//! Setting a simulation up: registering a number of clients and of
//! participants with the coordinator, each under its number as its name.

use crate::client::Client;
use crate::client::ClientView;
use crate::coordinator::participant_log_path;
use crate::coordinator::Coordinator;
use crate::coordinator::CoordinatorState;
use crate::coordinator::CoordinatorView;
use crate::directory::registered;
use crate::message::Entry;
use crate::participant::Participant;
use crate::participant::ParticipantState;
use crate::participant::ParticipantView;
use crate::text::signed_decimal;
use crate::text::signed_text;
use vstd::prelude::*;

verus! {

/// The names in a directory after the peers `0` to `n - 1` have registered,
/// each under the decimal text of its number.
pub open spec fn enrolled(names: Seq<Seq<char>>, n: nat) -> Seq<Seq<char>>
    decreases n,
{
    if n == 0 {
        names
    } else {
        registered(enrolled(names, (n - 1) as nat), signed_decimal(n - 1))
    }
}

/// The number of peers that `n` asks for: none if `n` is negative.
pub open spec fn asked(n: int) -> nat {
    if n < 0 {
        0
    } else {
        n as nat
    }
}

/// Creates `n_clients` clients and registers them with the coordinator,
/// client `i` under the name `i`. The clients come back in that order; each
/// is new, and has the number of clients that joined before it as its
/// identifier.
pub fn register_clients(coordinator: &mut Coordinator, n_clients: i32) -> (clients: Vec<Client>)
    requires
        old(coordinator).wf(),
        old(coordinator)@.state == CoordinatorState::Quiescent,
        old(coordinator)@.num_clients + n_clients <= i32::MAX,
    ensures
        final(coordinator).wf(),
        final(coordinator)@ == (CoordinatorView {
            clients: enrolled(old(coordinator)@.clients, asked(n_clients as int)),
            num_clients: old(coordinator)@.num_clients + asked(n_clients as int),
            ..old(coordinator)@
        }),
        final(coordinator).msg_success_prob() == old(coordinator).msg_success_prob(),
        final(coordinator).ops_success_prob() == old(coordinator).ops_success_prob(),
        final(coordinator).log_path() == old(coordinator).log_path(),
        clients@.len() == asked(n_clients as int),
        forall|i: int|
            0 <= i < clients@.len() ==> (#[trigger] clients@[i]).wf() && clients@[i]@ == (ClientView {
                id: old(coordinator)@.num_clients + i,
                opid: 0,
                successful: 0,
                failed: 0,
                unknown: 0,
                open: true,
            }),
{
    let mut clients: Vec<Client> = Vec::new();
    let mut i: i32 = 0;
    while i < n_clients
        invariant
            0 <= i <= asked(n_clients as int),
            old(coordinator)@.state == CoordinatorState::Quiescent,
            old(coordinator)@.num_clients + n_clients <= i32::MAX,
            coordinator.wf(),
            coordinator@ == (CoordinatorView {
                clients: enrolled(old(coordinator)@.clients, i as nat),
                num_clients: old(coordinator)@.num_clients + i,
                ..old(coordinator)@
            }),
            coordinator.msg_success_prob() == old(coordinator).msg_success_prob(),
            coordinator.ops_success_prob() == old(coordinator).ops_success_prob(),
            coordinator.log_path() == old(coordinator).log_path(),
            clients@.len() == i,
            forall|j: int|
                0 <= j < clients@.len() ==> (#[trigger] clients@[j]).wf() && clients@[j]@ == (
                ClientView {
                    id: old(coordinator)@.num_clients + j,
                    opid: 0,
                    successful: 0,
                    failed: 0,
                    unknown: 0,
                    open: true,
                }),
        decreases n_clients - i,
    {
        proof {
            coordinator.lemma_consistent();
        }
        let client = coordinator.client_join(signed_text(i));
        clients.push(client);
        i = i + 1;
    }
    clients
}

/// Creates `n_participants` participants and registers them with the
/// coordinator, participant `i` under the name `i`. The participants come
/// back in that order; each is new, has the number of participants that
/// joined before it as its identifier, and keeps its log under
/// `logpathbase`.
pub fn register_participants(
    coordinator: &mut Coordinator,
    n_participants: i32,
    logpathbase: &String,
) -> (participants: Vec<Participant>)
    requires
        old(coordinator).wf(),
        old(coordinator)@.state == CoordinatorState::Quiescent,
        old(coordinator)@.num_participants + n_participants <= i32::MAX,
    ensures
        final(coordinator).wf(),
        final(coordinator)@ == (CoordinatorView {
            participants: enrolled(old(coordinator)@.participants, asked(n_participants as int)),
            num_participants: old(coordinator)@.num_participants + asked(n_participants as int),
            ..old(coordinator)@
        }),
        final(coordinator).msg_success_prob() == old(coordinator).msg_success_prob(),
        final(coordinator).ops_success_prob() == old(coordinator).ops_success_prob(),
        final(coordinator).log_path() == old(coordinator).log_path(),
        participants@.len() == asked(n_participants as int),
        forall|i: int|
            0 <= i < participants@.len() ==> {
                &&& (#[trigger] participants@[i]).wf()
                &&& participants@[i]@ == (ParticipantView {
                    id: old(coordinator)@.num_participants + i,
                    state: ParticipantState::Quiescent,
                    log: Seq::<Entry>::empty(),
                    pending: None,
                    successful: 0,
                    failed: 0,
                    unknown: 0,
                })
                &&& participants@[i].op_success_prob() == old(coordinator).ops_success_prob()
                &&& participants@[i].msg_success_prob() == old(coordinator).msg_success_prob()
                &&& participants@[i].log_path() == participant_log_path(
                    logpathbase@,
                    old(coordinator)@.num_participants + i,
                )
            },
{
    let mut participants: Vec<Participant> = Vec::new();
    let mut i: i32 = 0;
    while i < n_participants
        invariant
            0 <= i <= asked(n_participants as int),
            old(coordinator)@.state == CoordinatorState::Quiescent,
            old(coordinator)@.num_participants + n_participants <= i32::MAX,
            coordinator.wf(),
            coordinator@ == (CoordinatorView {
                participants: enrolled(old(coordinator)@.participants, i as nat),
                num_participants: old(coordinator)@.num_participants + i,
                ..old(coordinator)@
            }),
            coordinator.msg_success_prob() == old(coordinator).msg_success_prob(),
            coordinator.ops_success_prob() == old(coordinator).ops_success_prob(),
            coordinator.log_path() == old(coordinator).log_path(),
            participants@.len() == i,
            forall|j: int|
                0 <= j < participants@.len() ==> {
                    &&& (#[trigger] participants@[j]).wf()
                    &&& participants@[j]@ == (ParticipantView {
                        id: old(coordinator)@.num_participants + j,
                        state: ParticipantState::Quiescent,
                        log: Seq::<Entry>::empty(),
                        pending: None,
                        successful: 0,
                        failed: 0,
                        unknown: 0,
                    })
                    &&& participants@[j].op_success_prob() == old(coordinator).ops_success_prob()
                    &&& participants@[j].msg_success_prob() == old(coordinator).msg_success_prob()
                    &&& participants@[j].log_path() == participant_log_path(
                        logpathbase@,
                        old(coordinator)@.num_participants + j,
                    )
                },
        decreases n_participants - i,
    {
        proof {
            coordinator.lemma_consistent();
        }
        let participant = coordinator.participant_join(signed_text(i), logpathbase);
        participants.push(participant);
        i = i + 1;
    }
    participants
}

} // verus!
