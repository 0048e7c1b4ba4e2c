use std::sync::atomic::AtomicBool;
use std::sync::atomic::Ordering;
use std::sync::mpsc::channel;
use std::sync::Arc;
use two_phase_commit::coordinator::all_commit;
use two_phase_commit::coordinator::coordinator_log_file;
use two_phase_commit::coordinator::offers_again;
use two_phase_commit::coordinator::participant_log_file;
use two_phase_commit::coordinator::pick_request;
use two_phase_commit::coordinator::settle_send;
use two_phase_commit::coordinator::Coordinator;
use two_phase_commit::coordinator::CoordinatorState;
use two_phase_commit::message::MessageType;
use two_phase_commit::message::ProtocolMessage;
use two_phase_commit::participant::ParticipantState;
use two_phase_commit::probability::Probability;
use two_phase_commit::transport::Received;
use two_phase_commit::transport::MAX_SEND_ATTEMPTS;

fn coordinator(msg: Probability, ops: Probability, total: i32) -> (Coordinator, Arc<AtomicBool>) {
    let running = Arc::new(AtomicBool::new(true));
    let c = Coordinator::new(
        String::from("logs/coordinator.log"),
        running.clone(),
        msg,
        ops,
        total,
    );
    (c, running)
}

fn message(kind: MessageType, txid: i32, sender: &str, opid: i32) -> ProtocolMessage {
    ProtocolMessage::generate(kind, 0, txid, String::from(sender), opid)
}

fn request(txid: i32, opid: i32) -> ProtocolMessage {
    message(MessageType::ClientRequest, txid, "Client_0", opid)
}

fn vote(kind: MessageType, txid: i32) -> Option<ProtocolMessage> {
    Some(message(kind, txid, "participant_0", 0))
}

fn turns(c: &mut Coordinator, n: usize) {
    for _ in 0..n {
        assert!(c.protocol());
    }
}

fn kinds(c: &Coordinator) -> Vec<MessageType> {
    c.log().records().iter().map(|r| r.message.mtype).collect()
}

#[test]
fn a_new_coordinator_is_quiescent_and_has_no_peers() {
    let (c, _running) = coordinator(Probability::always(), Probability::always(), 12);
    assert_eq!(c.state(), CoordinatorState::Quiescent);
    assert_eq!(c.successful(), 0);
    assert_eq!(c.failed(), 0);
    assert_eq!(c.unknown(), 0);
    assert_eq!(c.num_req_handled(), 0);
    assert_eq!(c.total_req(), 12);
    assert_eq!(c.num_clients(), 0);
    assert_eq!(c.num_participants(), 0);
    assert_eq!(c.log().len(), 0);
    assert_eq!(c.log().path(), "logs/coordinator.log");
}

#[test]
fn participants_are_numbered_as_they_join() {
    let (mut c, _running) = coordinator(Probability::always(), Probability::never(), 1);
    let base = String::from("var/run");
    let first = c.participant_join(String::from("left"), &base);
    let second = c.participant_join(String::from("right"), &base);
    assert_eq!(first.id(), 0);
    assert_eq!(second.id(), 1);
    assert_eq!(first.log().path(), "var/run/participant_0.log");
    assert_eq!(second.log().path(), "var/run/participant_1.log");
    assert_eq!(first.state(), ParticipantState::Quiescent);
    assert_eq!(first.log().len(), 0);
    assert_eq!(c.num_participants(), 2);
    assert_eq!(c.num_clients(), 0);
    assert_eq!(c.state(), CoordinatorState::Quiescent);
}

#[test]
fn clients_are_numbered_as_they_join() {
    let (mut c, _running) = coordinator(Probability::always(), Probability::always(), 1);
    let first = c.client_join(String::from("a"));
    let second = c.client_join(String::from("b"));
    let third = c.client_join(String::from("c"));
    assert_eq!(first.id(), 0);
    assert_eq!(second.id(), 1);
    assert_eq!(third.id(), 2);
    assert_eq!(third.opid(), 0);
    assert!(third.is_open());
    assert_eq!(c.num_clients(), 3);
    assert_eq!(c.num_participants(), 0);
}

#[test]
fn a_participant_that_joins_under_a_taken_name_replaces_the_earlier_one() {
    let (mut c, running) = coordinator(Probability::always(), Probability::always(), 1);
    let base = String::from("logs");
    let mut first = c.participant_join(String::from("p"), &base);
    let mut second = c.participant_join(String::from("p"), &base);
    let mut third = c.participant_join(String::from("q"), &base);
    assert_eq!(c.num_participants(), 3);
    assert_eq!(second.id(), 1);
    let exit = c.exit_message();
    assert_eq!(c.broadcast(&exit), 2);
    assert!(!first.protocol());
    assert!(running.load(Ordering::SeqCst));
    assert!(second.protocol());
    assert!(!running.load(Ordering::SeqCst));
    running.store(true, Ordering::SeqCst);
    assert!(third.protocol());
    assert!(!running.load(Ordering::SeqCst));
}

#[test]
fn votes_are_unanimous_only_if_each_is_a_vote_to_commit() {
    assert!(all_commit(&vec![], 1));
    assert!(all_commit(&vec![vote(MessageType::ParticipantVoteCommit, 1)], 1));
    assert!(all_commit(&vec![
        vote(MessageType::ParticipantVoteCommit, 1),
        vote(MessageType::ParticipantVoteCommit, 1),
        vote(MessageType::ParticipantVoteCommit, 1)
    ], 1));
    assert!(!all_commit(&vec![vote(MessageType::ParticipantVoteAbort, 1)], 1));
    assert!(!all_commit(&vec![None], 1));
    assert!(!all_commit(&vec![
        vote(MessageType::ParticipantVoteCommit, 1),
        vote(MessageType::ParticipantVoteAbort, 1),
        vote(MessageType::ParticipantVoteCommit, 1)
    ], 1));
    assert!(!all_commit(&vec![
        vote(MessageType::ParticipantVoteCommit, 1),
        vote(MessageType::ParticipantVoteCommit, 1),
        None
    ], 1));
    for kind in [
        MessageType::ClientRequest,
        MessageType::CoordinatorPropose,
        MessageType::CoordinatorCommit,
        MessageType::CoordinatorAbort,
        MessageType::ClientResultCommit,
        MessageType::ClientResultAbort,
        MessageType::CoordinatorExit,
    ] {
        assert!(!all_commit(&vec![vote(MessageType::ParticipantVoteCommit, 1), vote(kind, 1)], 1));
    }
}

#[test]
fn a_round_that_commits_logs_request_proposal_decision_and_result() {
    let (mut c, _running) = coordinator(Probability::always(), Probability::always(), 3);
    let propose = c.begin_round(&request(21, 6));
    assert_eq!(c.state(), CoordinatorState::Active);
    assert_eq!(propose.mtype, MessageType::CoordinatorPropose);
    assert_eq!(propose.txid, 21);
    assert_eq!(propose.opid, 6);
    assert_eq!(propose.senderid, "coordinator");
    assert_eq!(propose.uid, 0);
    assert_eq!(kinds(&c), vec![MessageType::ClientRequest, MessageType::CoordinatorPropose]);
    assert_eq!(c.log().records()[0].message.senderid, "Client_0");

    let votes = vec![
        vote(MessageType::ParticipantVoteCommit, 21),
        vote(MessageType::ParticipantVoteCommit, 21),
    ];
    let decision = c.decide(&votes);
    assert_eq!(c.state(), CoordinatorState::Active);
    assert_eq!(decision.mtype, MessageType::CoordinatorCommit);
    assert_eq!(decision.txid, 21);
    assert_eq!(decision.opid, 6);
    assert_eq!(decision.senderid, "coordinator");
    assert_eq!(decision.uid, 1);
    assert_eq!(c.successful(), 1);
    assert_eq!(c.failed(), 0);
    assert_eq!(c.num_req_handled(), 0);

    let result = c.finish_round();
    assert_eq!(c.state(), CoordinatorState::Quiescent);
    assert_eq!(result.mtype, MessageType::ClientResultCommit);
    assert_eq!(result.txid, 21);
    assert_eq!(result.opid, 6);
    assert_eq!(result.senderid, "coordinator");
    assert_eq!(result.uid, 2);
    assert_eq!(c.num_req_handled(), 1);
    assert_eq!(
        kinds(&c),
        vec![
            MessageType::ClientRequest,
            MessageType::CoordinatorPropose,
            MessageType::CoordinatorCommit,
            MessageType::ClientResultCommit
        ]
    );
    for r in c.log().records() {
        assert_eq!(r.message.txid, 21);
        assert_eq!(r.message.opid, 6);
    }
}

#[test]
fn a_round_with_one_vote_to_abort_aborts() {
    let (mut c, _running) = coordinator(Probability::always(), Probability::always(), 3);
    c.begin_round(&request(4, 0));
    let votes = vec![
        vote(MessageType::ParticipantVoteCommit, 4),
        vote(MessageType::ParticipantVoteAbort, 4),
    ];
    let decision = c.decide(&votes);
    assert_eq!(decision.mtype, MessageType::CoordinatorAbort);
    let result = c.finish_round();
    assert_eq!(result.mtype, MessageType::ClientResultAbort);
    assert_eq!(c.successful(), 0);
    assert_eq!(c.failed(), 1);
    assert_eq!(c.unknown(), 0);
    assert_eq!(
        kinds(&c),
        vec![
            MessageType::ClientRequest,
            MessageType::CoordinatorPropose,
            MessageType::CoordinatorAbort,
            MessageType::ClientResultAbort
        ]
    );
}

#[test]
fn a_round_with_a_missing_vote_aborts() {
    let (mut c, _running) = coordinator(Probability::always(), Probability::always(), 3);
    c.begin_round(&request(4, 0));
    let decision = c.decide(&vec![vote(MessageType::ParticipantVoteCommit, 4), None]);
    assert_eq!(decision.mtype, MessageType::CoordinatorAbort);
    assert_eq!(c.finish_round().mtype, MessageType::ClientResultAbort);
}

#[test]
fn the_messages_of_later_rounds_go_on_counting() {
    let (mut c, _running) = coordinator(Probability::always(), Probability::always(), 3);
    for round in 0..3u64 {
        let propose = c.begin_round(&request(10 + round as i32, round as i32));
        let decision = c.decide(&vec![]);
        let result = c.finish_round();
        assert_eq!(propose.uid, 3 * round);
        assert_eq!(decision.uid, 3 * round + 1);
        assert_eq!(result.uid, 3 * round + 2);
    }
    assert_eq!(c.num_req_handled(), 3);
    assert_eq!(c.successful(), 3);
    assert_eq!(c.log().len(), 12);
    assert_eq!(c.log().count(MessageType::CoordinatorCommit), 3);
}

#[test]
fn the_exit_message_carries_minus_one() {
    let (c, _running) = coordinator(Probability::always(), Probability::always(), 3);
    let exit = c.exit_message();
    assert_eq!(exit.mtype, MessageType::CoordinatorExit);
    assert_eq!(exit.txid, -1);
    assert_eq!(exit.opid, -1);
    assert_eq!(exit.senderid, "coordinator");
}

#[test]
fn a_send_that_always_succeeds_delivers_the_message() {
    let (c, _running) = coordinator(Probability::always(), Probability::always(), 1);
    let (tx, rx) = channel();
    let mut panic = false;
    assert!(c.send(&tx, request(3, 1), &mut panic));
    assert!(!panic);
    let got = rx.try_recv().unwrap();
    assert_eq!(got.txid, 3);
    assert_eq!(got.opid, 1);
    assert!(rx.try_recv().is_err());
}

#[test]
fn a_send_that_never_succeeds_drops_the_message_without_an_error() {
    let (c, _running) = coordinator(Probability::never(), Probability::always(), 1);
    let (tx, rx) = channel();
    let mut panic = false;
    for _ in 0..100 {
        assert!(!c.send(&tx, request(3, 1), &mut panic));
        assert!(!panic);
    }
    assert!(rx.try_recv().is_err());
}

#[test]
fn a_send_to_a_peer_that_is_gone_sets_the_flag() {
    let (c, _running) = coordinator(Probability::always(), Probability::always(), 1);
    let (tx, rx) = channel();
    drop(rx);
    let mut panic = false;
    assert!(!c.send(&tx, request(3, 1), &mut panic));
    assert!(panic);
}

#[test]
fn a_dropped_message_is_sent_again_until_it_arrives() {
    let half = Probability::from_ratio(1, 2).unwrap();
    let (c, _running) = coordinator(half, Probability::always(), 1);
    let (tx, rx) = channel();
    for i in 0..50 {
        assert!(c.send_with_retry(&tx, &request(i, 0)));
    }
    for i in 0..50 {
        assert_eq!(rx.try_recv().unwrap().txid, i);
    }
    assert!(rx.try_recv().is_err());
}

#[test]
fn retrying_stops_when_the_peer_is_gone() {
    let half = Probability::from_ratio(1, 2).unwrap();
    let (c, _running) = coordinator(half, Probability::always(), 1);
    let (tx, rx) = channel();
    drop(rx);
    assert!(!c.send_with_retry(&tx, &request(1, 0)));
}

#[test]
fn retrying_gives_up_when_nothing_ever_gets_through() {
    let (c, _running) = coordinator(Probability::never(), Probability::always(), 1);
    let (tx, rx) = channel();
    assert!(!c.send_with_retry(&tx, &request(1, 0)));
    assert!(rx.try_recv().is_err());
}

#[test]
fn a_broadcast_reaches_every_participant_that_is_there() {
    let (mut c, running) = coordinator(Probability::always(), Probability::always(), 1);
    let base = String::from("logs");
    let mut first = c.participant_join(String::from("0"), &base);
    let gone = c.participant_join(String::from("1"), &base);
    let mut third = c.participant_join(String::from("2"), &base);
    drop(gone);
    let exit = c.exit_message();
    assert_eq!(c.broadcast(&exit), 2);
    assert!(first.protocol());
    assert!(first.wait_for_exit_signal());
    running.store(true, Ordering::SeqCst);
    assert!(third.protocol());
    assert!(third.wait_for_exit_signal());
}

#[test]
fn no_request_is_found_when_no_client_has_sent_one() {
    let (mut c, _running) = coordinator(Probability::always(), Probability::always(), 1);
    let _client = c.client_join(String::from("0"));
    let mut found = true;
    let (request, name) = c.recv_request(&mut found);
    assert!(!found);
    assert!(request.is_none());
    assert_eq!(name, "");
}

#[test]
fn no_request_is_found_without_clients() {
    let (mut c, _running) = coordinator(Probability::always(), Probability::always(), 1);
    let mut found = true;
    let (request, name) = c.recv_request(&mut found);
    assert!(!found);
    assert!(request.is_none());
    assert_eq!(name, "");
}

#[test]
fn a_request_is_returned_with_the_name_of_its_client() {
    let (mut c, _running) = coordinator(Probability::always(), Probability::always(), 1);
    let _idle = c.client_join(String::from("idle"));
    let mut busy = c.client_join(String::from("busy"));
    busy.send_next_operation().unwrap();
    let mut found = false;
    let (request, name) = c.recv_request(&mut found);
    assert!(found);
    let request = request.unwrap();
    assert_eq!(name, "busy");
    assert_eq!(request.mtype, MessageType::ClientRequest);
    assert_eq!(request.senderid, "Client_1");
    assert_eq!(request.opid, 0);
    assert_eq!(request.txid, 1);
}

#[test]
fn clients_are_polled_in_the_order_of_registration() {
    let (mut c, _running) = coordinator(Probability::always(), Probability::always(), 1);
    let mut first = c.client_join(String::from("first"));
    let mut second = c.client_join(String::from("second"));
    second.send_next_operation().unwrap();
    first.send_next_operation().unwrap();
    let mut found = false;
    let (_request, name) = c.recv_request(&mut found);
    assert_eq!(name, "first");
    let (_request, name) = c.recv_request(&mut found);
    assert_eq!(name, "second");
}

#[test]
fn a_client_that_is_gone_is_passed_over() {
    let (mut c, _running) = coordinator(Probability::always(), Probability::always(), 1);
    let gone = c.client_join(String::from("gone"));
    let mut here = c.client_join(String::from("here"));
    drop(gone);
    here.send_next_operation().unwrap();
    let mut found = false;
    let (request, name) = c.recv_request(&mut found);
    assert!(found);
    assert_eq!(name, "here");
    assert_eq!(request.unwrap().senderid, "Client_1");
    assert_eq!(c.num_clients(), 2);
}

#[test]
fn votes_come_back_in_the_order_of_registration() {
    let (mut c, _running) = coordinator(Probability::always(), Probability::always(), 1);
    let base = String::from("logs");
    let mut first = c.participant_join(String::from("0"), &base);
    let mut second = c.participant_join(String::from("1"), &base);
    assert!(second.send(message(MessageType::ParticipantVoteAbort, 1, "participant_1", 0)));
    assert!(first.send(message(MessageType::ParticipantVoteCommit, 1, "participant_0", 0)));
    let votes = c.collect_votes();
    assert_eq!(votes.len(), 2);
    assert_eq!(votes[0].as_ref().unwrap().senderid, "participant_0");
    assert_eq!(votes[0].as_ref().unwrap().mtype, MessageType::ParticipantVoteCommit);
    assert_eq!(votes[1].as_ref().unwrap().senderid, "participant_1");
    assert_eq!(votes[1].as_ref().unwrap().mtype, MessageType::ParticipantVoteAbort);
}

#[test]
fn a_vote_that_does_not_come_in_time_is_missing() {
    let (mut c, _running) = coordinator(Probability::always(), Probability::always(), 1);
    let base = String::from("logs");
    let _silent = c.participant_join(String::from("0"), &base);
    let gone = c.participant_join(String::from("1"), &base);
    drop(gone);
    let votes = c.collect_votes();
    assert_eq!(votes.len(), 2);
    assert!(votes[0].is_none());
    assert!(votes[1].is_none());
}

#[test]
fn a_round_takes_three_turns_and_its_result_goes_out_in_the_fourth() {
    let (mut c, running) = coordinator(Probability::always(), Probability::always(), 1);
    let mut client = c.client_join(String::from("0"));
    client.send_next_operation().unwrap();

    assert!(c.protocol());
    assert_eq!(c.state(), CoordinatorState::Active);
    assert_eq!(kinds(&c), vec![MessageType::ClientRequest, MessageType::CoordinatorPropose]);
    assert_eq!(c.num_req_handled(), 0);

    assert!(c.protocol());
    assert_eq!(c.state(), CoordinatorState::Active);
    assert_eq!(c.log().len(), 3);
    assert_eq!(c.successful(), 1);
    assert_eq!(c.num_req_handled(), 0);

    assert!(c.protocol());
    assert_eq!(c.state(), CoordinatorState::Quiescent);
    assert_eq!(c.log().len(), 4);
    assert_eq!(c.num_req_handled(), 1);
    assert!(running.load(Ordering::SeqCst));

    assert!(!c.protocol());
    assert!(!running.load(Ordering::SeqCst));
    assert_eq!(c.log().len(), 4);
    running.store(true, Ordering::SeqCst);
    client.recv_result();
    assert_eq!(client.successful(), 1);
    assert!(running.load(Ordering::SeqCst));
    client.send_next_operation().unwrap();
    client.recv_result();
    assert!(!running.load(Ordering::SeqCst));
}

#[test]
fn a_turn_without_a_request_changes_nothing() {
    let (mut c, running) = coordinator(Probability::always(), Probability::always(), 2);
    let _client = c.client_join(String::from("0"));
    assert!(c.protocol());
    assert_eq!(c.state(), CoordinatorState::Quiescent);
    assert_eq!(c.num_req_handled(), 0);
    assert_eq!(c.log().len(), 0);
    assert!(running.load(Ordering::SeqCst));
}

#[test]
fn a_message_goes_out_in_the_turn_after_the_one_that_logged_it() {
    let (mut c, running) = coordinator(Probability::always(), Probability::always(), 5);
    let base = String::from("logs");
    let mut client = c.client_join(String::from("0"));
    let mut participant = c.participant_join(String::from("0"), &base);
    assert!(participant.send(message(MessageType::ParticipantVoteCommit, 1, "participant_0", 0)));
    client.send_next_operation().unwrap();

    assert!(c.protocol());
    assert_eq!(c.log().len(), 2);
    running.store(false, Ordering::SeqCst);
    assert!(!participant.protocol());
    running.store(true, Ordering::SeqCst);

    assert!(c.protocol());
    assert_eq!(c.log().len(), 3);
    assert_eq!(c.successful(), 1);
    assert!(participant.protocol());
    assert_eq!(participant.state(), ParticipantState::Voted);
    assert_eq!(participant.log().records()[0].message.mtype, MessageType::CoordinatorPropose);
    assert_eq!(participant.log().records()[0].message.txid, 1);

    assert!(c.protocol());
    assert_eq!(c.log().len(), 4);
    assert_eq!(c.num_req_handled(), 1);
    assert!(participant.protocol());
    assert_eq!(participant.state(), ParticipantState::Quiescent);
    assert_eq!(participant.successful(), 1);
    assert_eq!(participant.log().len(), 3);
    assert!(participant.log().agrees_with(c.log()));
    assert_eq!(
        kinds(&c),
        vec![
            MessageType::ClientRequest,
            MessageType::CoordinatorPropose,
            MessageType::CoordinatorCommit,
            MessageType::ClientResultCommit
        ]
    );

    client.send_next_operation().unwrap();
    assert!(c.protocol());
    client.recv_result();
    assert_eq!(client.successful(), 1);
    assert_eq!(c.log().len(), 6);
}

#[test]
fn a_round_aborts_when_a_vote_does_not_come() {
    let (mut c, _running) = coordinator(Probability::always(), Probability::always(), 1);
    let base = String::from("logs");
    let mut client = c.client_join(String::from("0"));
    let mut participant = c.participant_join(String::from("0"), &base);
    client.send_next_operation().unwrap();
    turns(&mut c, 3);
    assert_eq!(c.num_req_handled(), 1);
    assert_eq!(c.successful(), 0);
    assert_eq!(c.failed(), 1);
    assert!(participant.protocol());
    assert!(participant.protocol());
    assert_eq!(participant.successful(), 0);
    assert_eq!(participant.failed(), 1);
    assert!(!c.protocol());
    client.recv_result();
    assert_eq!(client.failed(), 1);
}

#[test]
fn the_coordinator_finishes_a_round_in_flight_after_the_simulation_has_stopped() {
    let (mut c, running) = coordinator(Probability::always(), Probability::always(), 5);
    let mut client = c.client_join(String::from("0"));
    client.send_next_operation().unwrap();
    assert!(c.protocol());
    running.store(false, Ordering::SeqCst);
    assert!(c.protocol());
    assert!(c.protocol());
    assert_eq!(c.state(), CoordinatorState::Quiescent);
    assert_eq!(c.num_req_handled(), 1);
    assert!(!c.protocol());
    running.store(true, Ordering::SeqCst);
    client.recv_result();
    assert_eq!(client.successful(), 1);
    assert!(running.load(Ordering::SeqCst));
}

#[test]
fn the_last_turn_tells_everyone_to_exit() {
    let (mut c, running) = coordinator(Probability::always(), Probability::always(), 1);
    let base = String::from("logs");
    let mut client = c.client_join(String::from("0"));
    let mut other = c.client_join(String::from("1"));
    let mut participant = c.participant_join(String::from("0"), &base);
    assert!(participant.send(message(MessageType::ParticipantVoteCommit, 1, "participant_0", 0)));
    client.send_next_operation().unwrap();
    other.send_next_operation().unwrap();
    turns(&mut c, 3);
    assert!(participant.protocol());
    assert!(participant.protocol());
    assert!(running.load(Ordering::SeqCst));
    assert!(!c.protocol());
    assert!(!running.load(Ordering::SeqCst));
    assert_eq!(c.num_req_handled(), 1);
    assert_eq!(c.log().len(), 4);
    running.store(true, Ordering::SeqCst);
    client.recv_result();
    assert_eq!(client.successful(), 1);
    assert!(running.load(Ordering::SeqCst));
    other.recv_result();
    assert!(!running.load(Ordering::SeqCst));
    assert_eq!(other.successful() + other.failed() + other.unknown(), 0);
    running.store(true, Ordering::SeqCst);
    assert!(participant.protocol());
    assert!(!running.load(Ordering::SeqCst));
    assert_eq!(participant.unknown(), 0);
    assert_eq!(participant.successful(), 1);
}

#[test]
fn a_coordinator_with_nothing_to_do_stops_at_once() {
    let (mut c, running) = coordinator(Probability::always(), Probability::always(), 0);
    assert!(!c.protocol());
    assert!(!running.load(Ordering::SeqCst));
    assert_eq!(c.log().len(), 0);
}

#[test]
fn a_stopped_simulation_ends_the_protocol_without_an_exit_message() {
    let (mut c, running) = coordinator(Probability::always(), Probability::always(), 10);
    let mut client = c.client_join(String::from("0"));
    client.send_next_operation().unwrap();
    running.store(false, Ordering::SeqCst);
    assert!(!c.protocol());
    assert_eq!(c.num_req_handled(), 0);
    assert_eq!(c.log().len(), 0);
    drop(c);
    running.store(true, Ordering::SeqCst);
    client.recv_result();
    assert!(running.load(Ordering::SeqCst));
    assert_eq!(client.successful() + client.failed() + client.unknown(), 0);
}

#[test]
fn the_status_line_of_the_coordinator() {
    let (mut c, _running) = coordinator(Probability::always(), Probability::always(), 3);
    assert_eq!(c.report_status(), "coordinator:\tC:0\tA:0\tU:0");
    c.begin_round(&request(1, 0));
    c.decide(&vec![]);
    c.finish_round();
    c.begin_round(&request(2, 1));
    c.decide(&vec![None]);
    c.finish_round();
    c.begin_round(&request(3, 2));
    c.decide(&vec![vote(MessageType::ParticipantVoteAbort, 3)]);
    c.finish_round();
    assert_eq!(c.report_status(), "coordinator:\tC:1\tA:2\tU:0");
}

#[test]
fn the_log_files_lie_under_the_log_directory() {
    let base = String::from("var/tpc");
    assert_eq!(coordinator_log_file(&base), "var/tpc/coordinator.log");
    assert_eq!(participant_log_file(&base, 0), "var/tpc/participant_0.log");
    assert_eq!(participant_log_file(&base, 17), "var/tpc/participant_17.log");
    assert_eq!(participant_log_file(&String::new(), 3), "/participant_3.log");
}

#[test]
fn a_send_counts_only_if_the_channel_took_the_message() {
    let mut panic = false;
    assert!(settle_send(Some(true), &mut panic));
    assert!(!panic);
    assert!(!settle_send(None, &mut panic));
    assert!(!panic);
    assert!(!settle_send(Some(false), &mut panic));
    assert!(panic);
    assert!(settle_send(Some(true), &mut panic));
    assert!(panic);
    assert!(!settle_send(None, &mut panic));
    assert!(panic);
}

#[test]
fn a_vote_on_another_transaction_does_not_count_for_commit() {
    assert!(all_commit(&vec![vote(MessageType::ParticipantVoteCommit, 7)], 7));
    assert!(!all_commit(&vec![vote(MessageType::ParticipantVoteCommit, 6)], 7));
    assert!(!all_commit(
        &vec![
            vote(MessageType::ParticipantVoteCommit, 7),
            vote(MessageType::ParticipantVoteCommit, 8),
        ],
        7
    ));
    assert!(all_commit(&vec![], 7));
}

#[test]
fn a_late_vote_of_an_earlier_round_aborts_the_round_in_flight() {
    let (mut c, _running) = coordinator(Probability::always(), Probability::always(), 3);
    c.begin_round(&request(21, 0));
    let decision = c.decide(&vec![
        vote(MessageType::ParticipantVoteCommit, 21),
        vote(MessageType::ParticipantVoteCommit, 20),
    ]);
    assert_eq!(decision.mtype, MessageType::CoordinatorAbort);
    assert_eq!(decision.txid, 21);
    assert_eq!(c.finish_round().mtype, MessageType::ClientResultAbort);
    assert_eq!(c.successful(), 0);
    assert_eq!(c.failed(), 1);
}

#[test]
fn a_turn_reads_a_late_vote_as_no_vote() {
    let (mut c, _running) = coordinator(Probability::always(), Probability::always(), 2);
    let base = String::from("logs");
    let mut client = c.client_join(String::from("0"));
    let mut participant = c.participant_join(String::from("0"), &base);
    assert!(participant.send(message(MessageType::ParticipantVoteCommit, 1, "participant_0", 0)));
    client.send_next_operation().unwrap();
    turns(&mut c, 3);
    assert_eq!(c.successful(), 1);
    assert!(participant.protocol());
    assert!(participant.protocol());
    assert_eq!(participant.successful(), 1);
    client.send_next_operation().unwrap();
    turns(&mut c, 3);
    assert_eq!(c.num_req_handled(), 2);
    assert_eq!(c.successful(), 1);
    assert_eq!(c.failed(), 1);
    assert_eq!(c.log().records()[6].message.mtype, MessageType::CoordinatorAbort);
    assert_eq!(c.log().records()[6].message.txid, 2);
}

#[test]
fn only_a_request_is_picked_from_what_a_poll_gave() {
    let picked = pick_request(Received::Message(request(5, 2))).unwrap();
    assert_eq!(picked.mtype, MessageType::ClientRequest);
    assert_eq!(picked.txid, 5);
    assert_eq!(picked.opid, 2);
    assert_eq!(picked.senderid, "Client_0");
    for kind in [
        MessageType::CoordinatorPropose,
        MessageType::ParticipantVoteCommit,
        MessageType::ParticipantVoteAbort,
        MessageType::CoordinatorCommit,
        MessageType::CoordinatorAbort,
        MessageType::ClientResultCommit,
        MessageType::ClientResultAbort,
        MessageType::CoordinatorExit,
    ] {
        assert!(pick_request(Received::Message(message(kind, 5, "Client_0", 2))).is_none());
    }
    assert!(pick_request(Received::TimedOut).is_none());
    assert!(pick_request(Received::Disconnected).is_none());
}

#[test]
fn only_a_dropped_message_is_offered_again() {
    assert!(offers_again(false, false, 1));
    assert!(offers_again(false, false, MAX_SEND_ATTEMPTS - 1));
    assert!(!offers_again(false, false, MAX_SEND_ATTEMPTS));
    assert!(!offers_again(true, false, 1));
    assert!(!offers_again(false, true, 1));
    assert!(!offers_again(true, true, 1));
    assert_eq!(MAX_SEND_ATTEMPTS, 1_000_000);
}

#[test]
fn the_result_is_for_the_client_whose_request_was_accepted() {
    let (mut c, _running) = coordinator(Probability::always(), Probability::always(), 2);
    let mut first = c.client_join(String::from("first"));
    let mut second = c.client_join(String::from("second"));
    assert_eq!(c.round_client(), "");
    second.send_next_operation().unwrap();
    assert!(c.protocol());
    assert_eq!(c.round_client(), "second");
    assert!(c.protocol());
    assert!(c.protocol());
    assert_eq!(c.round_client(), "second");
    first.send_next_operation().unwrap();
    assert!(c.protocol());
    assert_eq!(c.round_client(), "first");
    second.recv_result();
    assert_eq!(second.successful(), 1);
    assert_eq!(first.successful(), 0);
    turns(&mut c, 2);
    assert!(!c.protocol());
    first.recv_result();
    assert_eq!(first.successful(), 1);
}
