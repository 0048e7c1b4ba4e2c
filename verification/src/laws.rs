//! What holds of the logs and the decisions of the protocol as a whole.

use crate::client::ClientView;
use crate::coordinator::decision_entry;
use crate::coordinator::is_commit_vote;
use crate::coordinator::propose_entry;
use crate::coordinator::request_in_flight;
use crate::coordinator::round_at;
use crate::coordinator::round_entries;
use crate::coordinator::settled;
use crate::coordinator::unanimous;
use crate::coordinator::CoordinatorView;
use crate::message::is_decision;
use crate::message::is_vote;
use crate::message::Entry;
use crate::message::MessageType;
use crate::message::ProtocolMessage;
use crate::message::RequestStatus;
use crate::oplog::contradicts;
use crate::oplog::count_kind;
use crate::participant::decided;
use crate::participant::in_place;
use crate::participant::status_of;
use crate::participant::vote_entry;
use crate::participant::ParticipantView;
use vstd::prelude::*;

verus! {

/// The transaction identifier of the `k`-th request in a coordinator's log.
pub open spec fn request_txid(log: Seq<Entry>, k: int) -> int {
    log[4 * k].txid
}

/// No two requests in a coordinator's log carry the same transaction
/// identifier.
pub open spec fn requests_differ(log: Seq<Entry>) -> bool {
    forall|j: int, k: int|
        0 <= j < k && 4 * k < log.len() ==> #[trigger] request_txid(log, j) != #[trigger] request_txid(
            log,
            k,
        )
}

/// For every transaction that the coordinator has handled, its log holds,
/// in this order, the request, the proposal, one decision and the result
/// that matches the decision; and if no two requests share a transaction
/// identifier, it holds nothing else on that transaction.
pub proof fn law_coordinator_logs_one_round(v: CoordinatorView, k: int)
    requires
        crate::coordinator::consistent(v),
        0 <= k < v.handled,
    ensures
        v.log[4 * k].kind == MessageType::ClientRequest,
        v.log.subrange(4 * k, 4 * k + 4) == round_entries(
            v.log[4 * k],
            v.log[4 * k + 2].kind == MessageType::CoordinatorCommit,
        ),
        requests_differ(v.log) ==> forall|i: int|
            0 <= i < v.log.len() && (#[trigger] v.log[i]).txid == v.log[4 * k].txid ==> 4 * k <= i
                < 4 * k + 4,
{
    assert(round_at(v.log, k));
    assert(v.log.subrange(4 * k, 4 * k + 4) =~= round_entries(
        v.log[4 * k],
        v.log[4 * k + 2].kind == MessageType::CoordinatorCommit,
    ));
    if requests_differ(v.log) {
        assert forall|i: int|
            0 <= i < v.log.len() && (#[trigger] v.log[i]).txid == v.log[4 * k].txid implies 4 * k
            <= i < 4 * k + 4 by {
            let q = i / 4;
            assert(4 * q <= i < 4 * q + 4);
            if q < v.handled {
                assert(round_at(v.log, q));
            }
            assert(v.log[i].txid == request_txid(v.log, q));
            assert(request_txid(v.log, k) == v.log[4 * k].txid);
            if q < k {
                assert(request_txid(v.log, q) != request_txid(v.log, k));
            }
            if k < q {
                assert(request_txid(v.log, k) != request_txid(v.log, q));
            }
        }
    }
}

/// Entry `i` of a log is a proposal.
pub open spec fn proposal_at(log: Seq<Entry>, i: int) -> bool {
    0 <= i < log.len() && log[i].kind == MessageType::CoordinatorPropose
}

/// Entry `i` of a log is a decision.
pub open spec fn decision_at(log: Seq<Entry>, i: int) -> bool {
    0 <= i < log.len() && is_decision(log[i].kind)
}

/// No two proposals in a participant's log carry the same transaction
/// identifier.
pub open spec fn proposals_differ(log: Seq<Entry>) -> bool {
    forall|i: int, j: int|
        #[trigger] proposal_at(log, i) && #[trigger] proposal_at(log, j) && i != j ==> log[i].txid
            != log[j].txid
}

/// Every decision in a participant's log is on the transaction of the
/// proposal that stands two entries before it.
pub open spec fn decisions_belong(log: Seq<Entry>) -> bool {
    forall|i: int| #[trigger] decision_at(log, i) && 2 <= i ==> log[i].txid == log[i - 2].txid
}

/// For every proposal that a participant has logged, its log holds exactly
/// one vote on that transaction, right after the proposal, and at most one
/// decision, right after the vote, if no two proposals share a transaction
/// identifier and every decision is on the transaction that it answers.
pub proof fn law_participant_logs_one_vote(v: ParticipantView, i: int)
    requires
        crate::participant::consistent(v),
        proposals_differ(v.log),
        decisions_belong(v.log),
        proposal_at(v.log, i),
    ensures
        i + 1 < v.log.len(),
        is_vote(v.log[i + 1].kind),
        v.log[i + 1].txid == v.log[i].txid,
        forall|j: int|
            0 <= j < v.log.len() && (#[trigger] v.log[j]).txid == v.log[i].txid ==> {
                &&& v.log[j].kind == MessageType::CoordinatorPropose ==> j == i
                &&& is_vote(v.log[j].kind) ==> j == i + 1
                &&& is_decision(v.log[j].kind) ==> j == i + 2
            },
{
    let log = v.log;
    assert(in_place(log, i));
    assert forall|j: int| 0 <= j < log.len() && (#[trigger] log[j]).txid == log[i].txid implies {
        &&& log[j].kind == MessageType::CoordinatorPropose ==> j == i
        &&& is_vote(log[j].kind) ==> j == i + 1
        &&& is_decision(log[j].kind) ==> j == i + 2
    } by {
        assert(in_place(log, j));
        if log[j].kind == MessageType::CoordinatorPropose {
            assert(proposal_at(log, j));
        } else if is_vote(log[j].kind) {
            assert(in_place(log, j - 1));
            assert(proposal_at(log, j - 1));
        } else if is_decision(log[j].kind) {
            assert(in_place(log, j - 1));
            assert(in_place(log, j - 2));
            assert(decision_at(log, j));
            assert(proposal_at(log, j - 2));
        }
    }
}

/// A participant that receives the coordinator's decision logs that same
/// decision, and sees the transaction as the coordinator decided it, unless
/// its log already holds the opposite decision on that transaction.
pub proof fn law_participant_follows_coordinator(
    c: CoordinatorView,
    commit: bool,
    p: ParticipantView,
)
    requires
        !contradicts(p.log, decision_entry(request_in_flight(c), commit).kind, request_in_flight(c).txid),
    ensures
        settled(c, commit).log.last() == decision_entry(request_in_flight(c), commit),
        decided(p, Some(settled(c, commit).log.last())).log.last() == settled(
            c,
            commit,
        ).log.last(),
        status_of(p.log, Some(settled(c, commit).log.last())) == if commit {
            RequestStatus::Committed
        } else {
            RequestStatus::Aborted
        },
{
}

/// On no transaction does a participant's log hold both a commit and an
/// abort.
pub proof fn law_participant_never_logs_both(v: ParticipantView, i: int, j: int)
    requires
        crate::participant::consistent(v),
        0 <= i < v.log.len(),
        0 <= j < v.log.len(),
        v.log[i].kind == MessageType::CoordinatorCommit,
        v.log[j].kind == MessageType::CoordinatorAbort,
    ensures
        v.log[i].txid != v.log[j].txid,
{
    assert(!crate::oplog::opposes(v.log[i], v.log[j].kind, v.log[j].txid));
}

/// The transaction identifiers on which a log holds a commit decision.
pub open spec fn committed_txids(log: Seq<Entry>) -> Set<int> {
    Set::new(
        |t: int|
            exists|i: int|
                0 <= i < log.len() && (#[trigger] log[i]).kind == MessageType::CoordinatorCommit
                    && log[i].txid == t,
    )
}

/// No two commit decisions in a log are on the same transaction.
pub open spec fn commits_differ(log: Seq<Entry>) -> bool {
    forall|i: int, j: int|
        0 <= i < j < log.len() && (#[trigger] log[i]).kind == MessageType::CoordinatorCommit && (
        #[trigger] log[j]).kind == MessageType::CoordinatorCommit ==> log[i].txid != log[j].txid
}

/// If no two commit decisions in a log are on the same transaction, the
/// number of commit decisions is the number of different transactions that
/// the log commits.
pub proof fn lemma_commits_counted(log: Seq<Entry>)
    requires
        commits_differ(log),
    ensures
        committed_txids(log).finite(),
        committed_txids(log).len() == count_kind(log, MessageType::CoordinatorCommit),
    decreases log.len(),
{
    if log.len() == 0 {
        assert(committed_txids(log) =~= Set::<int>::empty());
    } else {
        let init = log.drop_last();
        let e = log.last();
        assert forall|i: int, j: int|
            0 <= i < j < init.len() && (#[trigger] init[i]).kind == MessageType::CoordinatorCommit
                && (#[trigger] init[j]).kind
                == MessageType::CoordinatorCommit implies init[i].txid != init[j].txid by {
            assert(log[i] == init[i]);
            assert(log[j] == init[j]);
        }
        lemma_commits_counted(init);
        if e.kind == MessageType::CoordinatorCommit {
            assert(!committed_txids(init).contains(e.txid)) by {
                if committed_txids(init).contains(e.txid) {
                    let i = choose|i: int|
                        0 <= i < init.len() && (#[trigger] init[i]).kind
                            == MessageType::CoordinatorCommit && init[i].txid == e.txid;
                    assert(log[i] == init[i]);
                    assert(log[log.len() - 1] == e);
                }
            }
            assert(committed_txids(log) =~= committed_txids(init).insert(e.txid)) by {
                assert forall|t: int| committed_txids(log).contains(t) implies committed_txids(
                    init,
                ).insert(e.txid).contains(t) by {
                    let i = choose|i: int|
                        0 <= i < log.len() && (#[trigger] log[i]).kind
                            == MessageType::CoordinatorCommit && log[i].txid == t;
                    if i < init.len() {
                        assert(init[i] == log[i]);
                    }
                }
                assert forall|t: int|
                    committed_txids(init).insert(e.txid).contains(t) implies committed_txids(
                    log,
                ).contains(t) by {
                    if t == e.txid {
                        assert(log[log.len() - 1] == e);
                    } else {
                        let i = choose|i: int|
                            0 <= i < init.len() && (#[trigger] init[i]).kind
                                == MessageType::CoordinatorCommit && init[i].txid == t;
                        assert(log[i] == init[i]);
                    }
                }
            }
        } else {
            assert(committed_txids(log) =~= committed_txids(init)) by {
                assert forall|t: int| committed_txids(log).contains(t) implies committed_txids(
                    init,
                ).contains(t) by {
                    let i = choose|i: int|
                        0 <= i < log.len() && (#[trigger] log[i]).kind
                            == MessageType::CoordinatorCommit && log[i].txid == t;
                    assert(init[i] == log[i]);
                }
                assert forall|t: int| committed_txids(init).contains(t) implies committed_txids(
                    log,
                ).contains(t) by {
                    let i = choose|i: int|
                        0 <= i < init.len() && (#[trigger] init[i]).kind
                            == MessageType::CoordinatorCommit && init[i].txid == t;
                    assert(log[i] == init[i]);
                }
            }
        }
    }
}

/// The coordinator's count of successful transactions is the number of
/// different transaction identifiers for which it has logged a commit, if
/// no two requests share a transaction identifier.
pub proof fn law_successful_counts_committed(v: CoordinatorView)
    requires
        crate::coordinator::consistent(v),
        requests_differ(v.log),
    ensures
        committed_txids(v.log).finite(),
        v.successful == committed_txids(v.log).len(),
{
    assert forall|i: int, j: int|
        0 <= i < j < v.log.len() && (#[trigger] v.log[i]).kind == MessageType::CoordinatorCommit
            && (#[trigger] v.log[j]).kind
            == MessageType::CoordinatorCommit implies v.log[i].txid != v.log[j].txid by {
        let p = i / 4;
        let q = j / 4;
        assert(4 * p <= i < 4 * p + 4);
        assert(4 * q <= j < 4 * q + 4);
        if p < v.handled {
            assert(round_at(v.log, p));
        }
        if q < v.handled {
            assert(round_at(v.log, q));
        }
        assert(i == 4 * p + 2);
        assert(j == 4 * q + 2);
        assert(v.log[i].txid == request_txid(v.log, p));
        assert(v.log[j].txid == request_txid(v.log, q));
        assert(p < q);
        assert(request_txid(v.log, p) != request_txid(v.log, q));
    }
    lemma_commits_counted(v.log);
}

/// A transaction commits if and only if, within the deadline, a vote to
/// commit that very transaction came from every participant. Any other
/// message, a vote on another transaction or no message at all aborts it.
pub proof fn law_commit_needs_every_vote(c: CoordinatorView, votes: Seq<Option<ProtocolMessage>>)
    ensures
        settled(c, unanimous(votes, request_in_flight(c).txid)).decision == Some(true)
            <==> forall|i: int|
            0 <= i < votes.len() ==> (#[trigger] votes[i]) is Some && votes[i]->0@.kind
                == MessageType::ParticipantVoteCommit && votes[i]->0@.txid == request_in_flight(
                c,
            ).txid,
        settled(c, unanimous(votes, request_in_flight(c).txid)).log.last().kind
            == MessageType::CoordinatorCommit <==> unanimous(votes, request_in_flight(c).txid),
{
    let txid = request_in_flight(c).txid;
    if unanimous(votes, txid) {
        assert forall|i: int| 0 <= i < votes.len() implies (#[trigger] votes[i]) is Some
            && votes[i]->0@.kind == MessageType::ParticipantVoteCommit && votes[i]->0@.txid
            == txid by {
            assert(is_commit_vote(votes[i], txid));
        }
    }
}

/// A vote to commit another transaction than the one in flight, such as a
/// late vote of an earlier round, aborts the round.
pub proof fn law_late_vote_aborts(c: CoordinatorView, votes: Seq<Option<ProtocolMessage>>, i: int)
    requires
        0 <= i < votes.len(),
        votes[i] matches Some(m) && m@.txid != request_in_flight(c).txid,
    ensures
        settled(c, unanimous(votes, request_in_flight(c).txid)).decision == Some(false),
{
    assert(!is_commit_vote(votes[i], request_in_flight(c).txid));
}

/// A new client that has run a workload of `n` requests has counted no
/// more than `n` outcomes.
pub proof fn law_client_counts_no_more_than_it_asked(
    before: ClientView,
    after: ClientView,
    n: int,
)
    requires
        before.opid == 0,
        crate::client::consistent(after),
        after.opid <= before.opid + n || after.opid == before.opid,
        0 <= n,
    ensures
        after.successful + after.failed + after.unknown <= n,
{
}

/// If every participant's local operation succeeds and every vote on the
/// proposal of the round in flight arrives within the deadline, the
/// transaction commits.
pub proof fn law_sure_operations_commit(
    c: CoordinatorView,
    votes: Seq<Option<ProtocolMessage>>,
    ids: Seq<int>,
)
    requires
        votes.len() == ids.len(),
        forall|i: int|
            0 <= i < votes.len() ==> ((#[trigger] votes[i]) matches Some(m) && m@.entry()
                == vote_entry(ids[i], propose_entry(request_in_flight(c)), true)),
    ensures
        unanimous(votes, request_in_flight(c).txid),
        settled(c, unanimous(votes, request_in_flight(c).txid)).decision == Some(true),
{
    assert forall|i: int| 0 <= i < votes.len() implies is_commit_vote(
        #[trigger] votes[i],
        request_in_flight(c).txid,
    ) by {}
}

/// If the local operation of one participant fails, or the vote of one
/// participant does not arrive within the deadline, the transaction aborts.
pub proof fn law_one_failure_aborts(
    c: CoordinatorView,
    votes: Seq<Option<ProtocolMessage>>,
    i: int,
    id: int,
    propose: Entry,
)
    requires
        0 <= i < votes.len(),
        votes[i] matches Some(m) ==> m@.entry() == vote_entry(id, propose, false),
    ensures
        !unanimous(votes, request_in_flight(c).txid),
        settled(c, unanimous(votes, request_in_flight(c).txid)).decision == Some(false),
{
    assert(!is_commit_vote(votes[i], request_in_flight(c).txid));
}

/// With a single participant whose local operation succeeds, the
/// transaction commits as soon as its vote on the proposal of the round in
/// flight arrives within the deadline.
pub proof fn law_single_vote_commits(c: CoordinatorView, vote: ProtocolMessage, id: int)
    requires
        vote@.entry() == vote_entry(id, propose_entry(request_in_flight(c)), true),
    ensures
        unanimous(seq![Some(vote)], request_in_flight(c).txid),
        settled(c, unanimous(seq![Some(vote)], request_in_flight(c).txid)).decision == Some(true),
{
    assert forall|i: int| 0 <= i < seq![Some(vote)].len() implies is_commit_vote(
        #[trigger] seq![Some(vote)][i],
        request_in_flight(c).txid,
    ) by {}
}

} // verus!
