use network::coordinator::{
    Action, Coordinator, WatchStep, AUTO_MESSAGE_INTERVAL_SECS, AUTO_MESSAGE_LENGTH,
    DATA_CHANNEL_LABEL, DEFAULT_POLL_INTERVAL_SECS, PROBE_TIMEOUT_SECS,
};
use network::error::SignalError;
use network::model::FailurePolicy;
use network::session::{
    ConnectionState, IceCandidate, Phase, ProbeOutcome, RoleSource, SdpKind, SessionDescription,
    SessionRole,
};
use network::transport::{OutboundSignal, SignalPayload};

fn candidate(text: &str) -> IceCandidate {
    IceCandidate {
        candidate: text.to_string(),
        sdp_mid: None,
        sdp_mline_index: None,
        username_fragment: None,
    }
}

fn candidate_body(text: &str) -> String {
    format!("{{\"candidate\":\"{}\"}}", text)
}

fn offer(sdp: &str) -> SessionDescription {
    SessionDescription { kind: SdpKind::Offer, sdp: sdp.to_string() }
}

fn answer(sdp: &str) -> SessionDescription {
    SessionDescription { kind: SdpKind::Answer, sdp: sdp.to_string() }
}

fn session(role: SessionRole, address: &str) -> Coordinator {
    let mut session = Coordinator::new();
    assert_eq!(session.set_remote_address(address.to_string()), Ok(vec![]));
    assert_eq!(session.determine_role(RoleSource::Configured(role)), Ok(vec![]));
    session
}

fn send_description(address: &str, description: SessionDescription) -> Action {
    Action::SendSignal(OutboundSignal {
        address: address.to_string(),
        payload: SignalPayload::Description(description),
    })
}

#[test]
fn new_session_is_idle_and_empty() {
    let session = Coordinator::new();
    assert_eq!(session.phase(), Phase::Idle);
    assert_eq!(session.role(), None);
    assert_eq!(session.get_remote_address(), "");
    assert!(!session.is_remote_description_set());
    assert!(!session.is_channel_ready());
    assert_eq!(session.get_pending_candidates(), Vec::<IceCandidate>::new());
    assert_eq!(session.get_unsent_candidates(), Vec::<IceCandidate>::new());
    assert_eq!(session.local_description(), None);
    assert_eq!(session.remote_description(), None);
}

#[test]
fn timing_constants_have_their_documented_values() {
    assert_eq!(DEFAULT_POLL_INTERVAL_SECS, 1);
    assert_eq!(PROBE_TIMEOUT_SECS, 5);
    assert_eq!(AUTO_MESSAGE_INTERVAL_SECS, 5);
    assert_eq!(AUTO_MESSAGE_LENGTH, 3);
    assert_eq!(DATA_CHANNEL_LABEL, "data");
}

#[test]
fn probe_that_reaches_the_remote_makes_an_offerer() {
    assert_eq!(
        SessionRole::determine(RoleSource::Probed(ProbeOutcome::Reached)),
        SessionRole::Offerer
    );
    assert_eq!(
        SessionRole::determine(RoleSource::Probed(ProbeOutcome::Refused)),
        SessionRole::Answerer
    );
    assert_eq!(
        SessionRole::determine(RoleSource::Probed(ProbeOutcome::TimedOut)),
        SessionRole::Answerer
    );
    assert_eq!(
        SessionRole::determine(RoleSource::Configured(SessionRole::Offerer)),
        SessionRole::Offerer
    );
    assert_eq!(
        SessionRole::determine(RoleSource::Configured(SessionRole::Answerer)),
        SessionRole::Answerer
    );
}

#[test]
fn mode_names_a_role_or_leaves_it_open() {
    assert_eq!(SessionRole::from_mode("offer"), Some(SessionRole::Offerer));
    assert_eq!(SessionRole::from_mode("answer"), Some(SessionRole::Answerer));
    assert_eq!(SessionRole::from_mode(""), None);
    assert_eq!(SessionRole::from_mode("Offer"), None);
    assert_eq!(SessionRole::from_mode("auto"), None);
    assert_eq!(SessionRole::Offerer.local_kind(), SdpKind::Offer);
    assert_eq!(SessionRole::Answerer.local_kind(), SdpKind::Answer);
}

#[test]
fn role_is_fixed_once() {
    let mut session = Coordinator::new();
    assert_eq!(
        session.determine_role(RoleSource::Probed(ProbeOutcome::Reached)),
        Ok(vec![])
    );
    assert_eq!(session.role(), Some(SessionRole::Offerer));
    assert_eq!(session.phase(), Phase::RoleDetermined);
    assert_eq!(
        session.determine_role(RoleSource::Configured(SessionRole::Answerer)),
        Err(SignalError::InvalidState)
    );
    assert_eq!(session.role(), Some(SessionRole::Offerer));
}

#[test]
fn remote_address_is_set_once() {
    let mut session = Coordinator::new();
    assert_eq!(session.set_remote_address("127.0.0.1:8081".to_string()), Ok(vec![]));
    assert_eq!(session.get_remote_address(), "127.0.0.1:8081");
    assert_eq!(
        session.set_remote_address("10.0.0.1:1".to_string()),
        Err(SignalError::InvalidState)
    );
    assert_eq!(session.get_remote_address(), "127.0.0.1:8081");
}

#[test]
fn offerer_asks_for_a_channel_and_an_offer() {
    let mut session = session(SessionRole::Offerer, "127.0.0.1:8081");
    assert_eq!(
        session.handle_offer_mode(),
        Ok(vec![Action::CreateDataChannel, Action::CreateOffer])
    );
    assert_eq!(session.phase(), Phase::Offering);
    assert_eq!(session.handle_offer_mode(), Err(SignalError::InvalidState));
    assert_eq!(session.handle_answer_mode(), Err(SignalError::InvalidState));
}

#[test]
fn answerer_waits_for_a_channel_and_produces_no_description() {
    let mut session = session(SessionRole::Answerer, "127.0.0.1:8081");
    assert_eq!(session.handle_answer_mode(), Ok(vec![Action::AwaitDataChannel]));
    assert_eq!(session.phase(), Phase::AwaitingOffer);
    assert_eq!(session.local_description(), None);
    assert_eq!(session.handle_answer_mode(), Err(SignalError::InvalidState));
    assert_eq!(session.handle_offer_mode(), Err(SignalError::InvalidState));
}

#[test]
fn mode_cannot_be_entered_without_a_role() {
    let mut session = Coordinator::new();
    assert_eq!(session.handle_offer_mode(), Err(SignalError::InvalidState));
    assert_eq!(session.handle_answer_mode(), Err(SignalError::InvalidState));
    assert_eq!(session.phase(), Phase::Idle);
}

#[test]
fn offer_is_tagged_set_and_sent() {
    let mut session = session(SessionRole::Offerer, "127.0.0.1:8081");
    assert_eq!(
        session.local_description_created("sdp-a".to_string()),
        Err(SignalError::InvalidState)
    );
    session.handle_offer_mode().unwrap();
    assert_eq!(
        session.local_description_created("sdp-a".to_string()),
        Ok(vec![Action::SetLocalDescription(offer("sdp-a"))])
    );
    assert_eq!(session.local_description(), None);
    assert_eq!(
        session.local_description_set(answer("sdp-a")),
        Err(SignalError::InvalidState)
    );
    assert_eq!(
        session.local_description_set(offer("sdp-a")),
        Ok(vec![send_description("127.0.0.1:8081", offer("sdp-a"))])
    );
    assert_eq!(session.local_description(), Some(offer("sdp-a")));
    assert_eq!(session.phase(), Phase::Offering);
    assert_eq!(
        session.local_description_set(offer("sdp-b")),
        Err(SignalError::InvalidState)
    );
    assert_eq!(
        session.local_description_created("sdp-b".to_string()),
        Err(SignalError::InvalidState)
    );
    assert_eq!(session.local_description(), Some(offer("sdp-a")));
}

#[test]
fn answerer_answers_once_the_offer_is_set() {
    let mut session = session(SessionRole::Answerer, "127.0.0.1:8080");
    session.handle_answer_mode().unwrap();
    assert_eq!(
        session.local_description_created("early".to_string()),
        Err(SignalError::InvalidState)
    );
    assert_eq!(
        session.receive_session_description("{\"type\":\"offer\",\"sdp\":\"sdp-a\"}"),
        Ok(vec![Action::SetRemoteDescription(offer("sdp-a"))])
    );
    assert!(!session.is_remote_description_set());
    assert_eq!(session.remote_description_set(offer("sdp-a")), Ok(vec![Action::CreateAnswer]));
    assert!(session.is_remote_description_set());
    assert_eq!(session.remote_description(), Some(offer("sdp-a")));
    assert_eq!(
        session.local_description_created("sdp-b".to_string()),
        Ok(vec![Action::SetLocalDescription(answer("sdp-b"))])
    );
    assert_eq!(
        session.local_description_set(answer("sdp-b")),
        Ok(vec![send_description("127.0.0.1:8080", answer("sdp-b"))])
    );
    assert_eq!(session.phase(), Phase::DescriptionExchanged);
}

#[test]
fn answer_is_not_sent_to_an_unknown_or_empty_address() {
    let mut unknown = Coordinator::new();
    unknown.determine_role(RoleSource::Configured(SessionRole::Answerer)).unwrap();
    unknown.remote_description_set(offer("o")).unwrap();
    assert_eq!(unknown.local_description_set(answer("a")), Ok(vec![]));
    assert_eq!(unknown.local_description(), Some(answer("a")));

    let mut empty = session(SessionRole::Answerer, "");
    empty.remote_description_set(offer("o")).unwrap();
    assert_eq!(empty.local_description_set(answer("a")), Ok(vec![]));
    assert_eq!(empty.phase(), Phase::DescriptionExchanged);
}

#[test]
fn offerer_does_not_answer_the_remote_description() {
    let mut session = session(SessionRole::Offerer, "127.0.0.1:8081");
    session.handle_offer_mode().unwrap();
    session.local_description_set(offer("o")).unwrap();
    assert_eq!(session.remote_description_set(answer("a")), Ok(vec![]));
    assert_eq!(session.phase(), Phase::DescriptionExchanged);
}

#[test]
fn second_remote_description_is_turned_down() {
    let mut session = session(SessionRole::Answerer, "127.0.0.1:8080");
    session.remote_description_set(offer("first")).unwrap();
    assert_eq!(
        session.receive_session_description("{\"type\":\"offer\",\"sdp\":\"second\"}"),
        Err(SignalError::InvalidState)
    );
    assert_eq!(session.accept_session_description(offer("second")), Err(SignalError::InvalidState));
    assert_eq!(session.remote_description_set(offer("second")), Err(SignalError::InvalidState));
    assert_eq!(session.remote_description(), Some(offer("first")));
}

#[test]
fn candidates_before_the_description_wait_in_arrival_order() {
    let mut session = session(SessionRole::Answerer, "127.0.0.1:8080");
    assert_eq!(session.receive_candidate(&candidate_body("a")), Ok(vec![]));
    assert_eq!(session.receive_candidate(&candidate_body("b")), Ok(vec![]));
    assert_eq!(session.accept_candidate(candidate("c")), Ok(vec![]));
    assert_eq!(
        session.get_pending_candidates(),
        vec![candidate("a"), candidate("b"), candidate("c")]
    );
}

#[test]
fn buffered_candidate_is_applied_when_the_offer_is_processed() {
    let mut session = session(SessionRole::Answerer, "127.0.0.1:8080");
    session.handle_answer_mode().unwrap();
    assert_eq!(session.receive_candidate(&candidate_body("early")), Ok(vec![]));
    assert_eq!(session.get_pending_candidates(), vec![candidate("early")]);
    assert_eq!(
        session.remote_description_set(offer("o")),
        Ok(vec![Action::ApplyBufferedCandidate(candidate("early")), Action::CreateAnswer])
    );
    assert_eq!(session.get_pending_candidates(), Vec::<IceCandidate>::new());
}

#[test]
fn drain_applies_every_candidate_in_arrival_order() {
    let mut session = session(SessionRole::Offerer, "127.0.0.1:8081");
    session.accept_candidate(candidate("1")).unwrap();
    session.accept_candidate(candidate("2")).unwrap();
    session.accept_candidate(candidate("3")).unwrap();
    assert_eq!(
        session.remote_description_set(answer("a")),
        Ok(vec![
            Action::ApplyBufferedCandidate(candidate("1")),
            Action::ApplyBufferedCandidate(candidate("2")),
            Action::ApplyBufferedCandidate(candidate("3")),
        ])
    );
    assert_eq!(session.get_pending_candidates(), Vec::<IceCandidate>::new());
}

#[test]
fn candidate_after_the_description_is_applied_at_once() {
    let mut session = session(SessionRole::Answerer, "127.0.0.1:8080");
    session.remote_description_set(offer("o")).unwrap();
    assert_eq!(
        session.receive_candidate(&candidate_body("late")),
        Ok(vec![Action::ApplyCandidate(candidate("late"))])
    );
    assert_eq!(
        session.accept_candidate(candidate("later")),
        Ok(vec![Action::ApplyCandidate(candidate("later"))])
    );
    assert_eq!(session.get_pending_candidates(), Vec::<IceCandidate>::new());
    session.close().unwrap();
    assert_eq!(
        session.accept_candidate(candidate("last")),
        Ok(vec![Action::ApplyCandidate(candidate("last"))])
    );
    assert_eq!(session.get_pending_candidates(), Vec::<IceCandidate>::new());
}

#[test]
fn malformed_candidate_changes_nothing() {
    let mut session = Coordinator::new();
    session.accept_candidate(candidate("a")).unwrap();
    assert_eq!(session.receive_candidate("{\"candidate\":"), Err(SignalError::Decode));
    assert_eq!(session.receive_candidate("{\"sdpMid\":\"0\"}"), Err(SignalError::Decode));
    assert_eq!(session.get_pending_candidates(), vec![candidate("a")]);
}

fn send_candidate(address: &str, candidate: IceCandidate) -> Action {
    Action::SendSignal(OutboundSignal {
        address: address.to_string(),
        payload: SignalPayload::Candidate(candidate),
    })
}

#[test]
fn local_candidate_never_enters_the_buffer_of_remote_candidates() {
    let mut session = session(SessionRole::Offerer, "127.0.0.1:8081");
    session.accept_candidate(candidate("theirs")).unwrap();
    assert_eq!(session.handle_local_candidate(candidate("mine")), Ok(vec![]));
    assert_eq!(session.get_pending_candidates(), vec![candidate("theirs")]);
    assert_eq!(session.get_unsent_candidates(), vec![candidate("mine")]);
}

#[test]
fn local_candidates_are_sent_once_the_remote_description_is_set() {
    let mut session = session(SessionRole::Offerer, "127.0.0.1:8081");
    session.handle_local_candidate(candidate("mine-1")).unwrap();
    session.accept_candidate(candidate("theirs")).unwrap();
    session.handle_local_candidate(candidate("mine-2")).unwrap();
    assert_eq!(
        session.remote_description_set(answer("a")),
        Ok(vec![
            Action::ApplyBufferedCandidate(candidate("theirs")),
            send_candidate("127.0.0.1:8081", candidate("mine-1")),
            send_candidate("127.0.0.1:8081", candidate("mine-2")),
        ])
    );
    assert_eq!(session.get_pending_candidates(), Vec::<IceCandidate>::new());
    assert_eq!(session.get_unsent_candidates(), Vec::<IceCandidate>::new());
}

#[test]
fn local_candidate_after_the_description_is_sent_at_once() {
    let mut session = session(SessionRole::Offerer, "127.0.0.1:8081");
    session.remote_description_set(answer("a")).unwrap();
    assert_eq!(
        session.handle_local_candidate(candidate("next")),
        Ok(vec![send_candidate("127.0.0.1:8081", candidate("next"))])
    );
    assert_eq!(session.get_pending_candidates(), Vec::<IceCandidate>::new());
    assert_eq!(session.get_unsent_candidates(), Vec::<IceCandidate>::new());
}

#[test]
fn answerer_sends_its_waiting_candidates_before_it_answers() {
    let mut session = session(SessionRole::Answerer, "127.0.0.1:8080");
    session.handle_local_candidate(candidate("mine")).unwrap();
    session.accept_candidate(candidate("theirs")).unwrap();
    assert_eq!(
        session.remote_description_set(offer("o")),
        Ok(vec![
            Action::ApplyBufferedCandidate(candidate("theirs")),
            send_candidate("127.0.0.1:8080", candidate("mine")),
            Action::CreateAnswer,
        ])
    );
}

#[test]
fn failed_action_ends_the_operation_or_is_only_logged() {
    let abort = FailurePolicy::Abort(SignalError::Engine);
    assert_eq!(abort.outcome(None), Some(SignalError::Engine));
    assert_eq!(abort.outcome(Some(SignalError::InvalidState)), Some(SignalError::InvalidState));
    assert_eq!(abort.logged(None), SignalError::Engine);
    assert_eq!(abort.logged(Some(SignalError::Encode)), SignalError::Encode);
    let lost = FailurePolicy::Abort(SignalError::SignalDeliveryFailed);
    assert_eq!(lost.outcome(None), Some(SignalError::SignalDeliveryFailed));
    let go_on = FailurePolicy::LogAndContinue;
    assert_eq!(go_on.outcome(None), None);
    assert_eq!(go_on.outcome(Some(SignalError::SignalDeliveryFailed)), None);
    assert_eq!(go_on.logged(None), SignalError::Engine);
    assert_eq!(
        go_on.logged(Some(SignalError::SignalDeliveryFailed)),
        SignalError::SignalDeliveryFailed
    );
}

#[test]
fn message_before_any_channel_fails_with_channel_not_ready() {
    let session = Coordinator::new();
    assert_eq!(session.send_message("hello".to_string()), Err(SignalError::ChannelNotReady));
}

#[test]
fn message_after_the_channel_is_set_goes_out() {
    let mut session = Coordinator::new();
    assert_eq!(session.set_data_channel(), Ok(vec![]));
    assert!(session.is_channel_ready());
    assert_eq!(
        session.send_message("hello".to_string()),
        Ok(vec![Action::SendText("hello".to_string())])
    );
    assert_eq!(session.send_message(String::new()), Ok(vec![Action::SendText(String::new())]));
}

#[test]
fn watcher_goes_on_only_when_connected() {
    let mut session = Coordinator::new();
    for state in [
        ConnectionState::New,
        ConnectionState::Connecting,
        ConnectionState::Disconnected,
        ConnectionState::Failed,
        ConnectionState::Closed,
    ] {
        assert_eq!(
            session.wait_for_connection(state, DEFAULT_POLL_INTERVAL_SECS),
            WatchStep::PollAfter(1)
        );
    }
    assert_eq!(session.wait_for_connection(ConnectionState::Connecting, 7), WatchStep::PollAfter(7));
    assert_eq!(session.wait_for_connection(ConnectionState::Connected, 1), WatchStep::Ready);
}

#[test]
fn session_is_connected_once_descriptions_are_exchanged_and_the_engine_says_so() {
    let mut session = session(SessionRole::Offerer, "127.0.0.1:8081");
    session.handle_offer_mode().unwrap();
    session.wait_for_connection(ConnectionState::Connected, 1);
    assert_eq!(session.phase(), Phase::Offering);
    session.local_description_set(offer("o")).unwrap();
    session.remote_description_set(answer("a")).unwrap();
    assert_eq!(session.phase(), Phase::DescriptionExchanged);
    session.wait_for_connection(ConnectionState::Connecting, 1);
    assert_eq!(session.phase(), Phase::DescriptionExchanged);
    session.wait_for_connection(ConnectionState::Connected, 1);
    assert_eq!(session.phase(), Phase::Connected);
    session.wait_for_connection(ConnectionState::Disconnected, 1);
    assert_eq!(session.phase(), Phase::Connected);
}

#[test]
fn close_releases_the_channel_and_is_idempotent() {
    let mut session = session(SessionRole::Offerer, "127.0.0.1:8081");
    session.set_data_channel().unwrap();
    session.accept_candidate(candidate("a")).unwrap();
    session.handle_local_candidate(candidate("b")).unwrap();
    assert_eq!(session.close(), Ok(vec![Action::ReleaseDataChannel, Action::CloseEngine]));
    assert_eq!(session.phase(), Phase::Closed);
    assert!(!session.is_channel_ready());
    assert_eq!(session.get_pending_candidates(), Vec::<IceCandidate>::new());
    assert_eq!(session.get_unsent_candidates(), Vec::<IceCandidate>::new());
    assert_eq!(session.close(), Ok(vec![]));
    assert_eq!(session.phase(), Phase::Closed);
    assert_eq!(session.send_message("x".to_string()), Err(SignalError::ChannelNotReady));
}

#[test]
fn close_without_a_channel_only_closes_the_engine() {
    let mut session = Coordinator::new();
    assert_eq!(session.close(), Ok(vec![Action::CloseEngine]));
}

#[test]
fn closed_session_turns_events_down() {
    let mut session = Coordinator::new();
    session.close().unwrap();
    assert_eq!(
        session.determine_role(RoleSource::Configured(SessionRole::Offerer)),
        Err(SignalError::InvalidState)
    );
    assert_eq!(session.set_remote_address("a:1".to_string()), Err(SignalError::InvalidState));
    assert_eq!(session.set_data_channel(), Err(SignalError::InvalidState));
    assert_eq!(session.accept_candidate(candidate("a")), Err(SignalError::InvalidState));
    assert_eq!(session.handle_local_candidate(candidate("a")), Err(SignalError::InvalidState));
    assert_eq!(session.accept_session_description(offer("o")), Err(SignalError::InvalidState));
    assert_eq!(session.remote_description_set(offer("o")), Err(SignalError::InvalidState));
    assert_eq!(session.wait_for_connection(ConnectionState::Connected, 1), WatchStep::Ready);
    assert_eq!(session.phase(), Phase::Closed);
}

#[test]
fn unknown_path_is_not_taken_up() {
    let mut session = Coordinator::new();
    assert_eq!(session.remote_handler("POST", "/nowhere", Some(b"{}".to_vec())), None);
    assert_eq!(session.remote_handler("GET", "/sdp", Some(b"{}".to_vec())), None);
    assert_eq!(session.remote_handler("DELETE", "/candidate", Some(Vec::new())), None);
    assert_eq!(session.remote_handler("POST", "/nowhere", None), None);
    assert_eq!(session.phase(), Phase::Idle);
}

#[test]
fn invalid_json_on_sdp_fails_and_later_requests_still_succeed() {
    let mut session = session(SessionRole::Answerer, "127.0.0.1:8080");
    assert_eq!(
        session.remote_handler("POST", "/sdp", Some(b"{not json".to_vec())),
        Some(Err(SignalError::Decode))
    );
    assert_eq!(
        session.remote_handler("POST", "/sdp", Some(vec![0xff, 0x00])),
        Some(Err(SignalError::Decode))
    );
    assert_eq!(session.remote_handler("POST", "/sdp", None), Some(Err(SignalError::Decode)));
    assert_eq!(session.remote_handler("POST", "/candidate", None), Some(Err(SignalError::Decode)));
    assert!(!session.is_remote_description_set());
    assert_eq!(
        session.remote_handler("POST", "/candidate", Some(candidate_body("a").into_bytes())),
        Some(Ok(vec![]))
    );
    assert_eq!(
        session.remote_handler(
            "POST",
            "/sdp",
            Some(b"{\"type\":\"offer\",\"sdp\":\"o\"}".to_vec())
        ),
        Some(Ok(vec![Action::SetRemoteDescription(offer("o"))]))
    );
}

#[test]
fn failure_of_an_action_follows_its_policy() {
    assert_eq!(
        Action::SetRemoteDescription(offer("o")).on_failure(),
        FailurePolicy::Abort(SignalError::Engine)
    );
    assert_eq!(
        Action::SetLocalDescription(offer("o")).on_failure(),
        FailurePolicy::Abort(SignalError::Engine)
    );
    assert_eq!(Action::CreateAnswer.on_failure(), FailurePolicy::Abort(SignalError::Engine));
    assert_eq!(Action::CreateOffer.on_failure(), FailurePolicy::Abort(SignalError::Engine));
    assert_eq!(
        Action::ApplyCandidate(candidate("a")).on_failure(),
        FailurePolicy::Abort(SignalError::Engine)
    );
    assert_eq!(
        Action::ApplyBufferedCandidate(candidate("a")).on_failure(),
        FailurePolicy::LogAndContinue
    );
    assert_eq!(
        send_description("a:1", offer("o")).on_failure(),
        FailurePolicy::Abort(SignalError::SignalDeliveryFailed)
    );
    assert_eq!(
        Action::SendSignal(OutboundSignal {
            address: "a:1".to_string(),
            payload: SignalPayload::Candidate(candidate("a")),
        })
        .on_failure(),
        FailurePolicy::LogAndContinue
    );
    assert_eq!(
        Action::SendText("x".to_string()).on_failure(),
        FailurePolicy::Abort(SignalError::Engine)
    );
}
