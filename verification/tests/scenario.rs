use network::coordinator::{Action, Coordinator};
use network::messages::{console_command, inbound_message, ConsoleCommand};
use network::session::{
    ConnectionState, IceCandidate, Phase, RoleSource, SdpKind, SessionDescription, SessionRole,
};
use network::transport::{Reply, Verdict};

/// One peer of the scenario: its session and what its stand-in engine saw.
struct Peer {
    address: String,
    session: Coordinator,
    applied: Vec<IceCandidate>,
    engine_remote: Option<SessionDescription>,
    engine_local: Option<SessionDescription>,
    sent_texts: Vec<Vec<u8>>,
    outbox: Vec<(String, String, Vec<u8>)>,
    next_sdp: String,
}

fn peer(address: &str, remote: &str, role: SessionRole, next_sdp: &str) -> Peer {
    let mut session = Coordinator::new();
    session.set_remote_address(remote.to_string()).unwrap();
    session.determine_role(RoleSource::Configured(role)).unwrap();
    Peer {
        address: address.to_string(),
        session,
        applied: Vec::new(),
        engine_remote: None,
        engine_local: None,
        sent_texts: Vec::new(),
        outbox: Vec::new(),
        next_sdp: next_sdp.to_string(),
    }
}

/// Carries out actions as the surroundings of a session would, with an
/// engine that accepts everything and a transport that delivers at the
/// first attempt.
fn perform(peer: &mut Peer, actions: Vec<Action>) {
    for action in actions {
        match action {
            Action::CreateDataChannel => {
                peer.session.set_data_channel().unwrap();
            }
            Action::AwaitDataChannel => {}
            Action::CreateOffer | Action::CreateAnswer => {
                let sdp = peer.next_sdp.clone();
                let next = peer.session.local_description_created(sdp).unwrap();
                perform(peer, next);
            }
            Action::SetLocalDescription(description) => {
                peer.engine_local = Some(description.clone());
                let next = peer.session.local_description_set(description).unwrap();
                perform(peer, next);
            }
            Action::SetRemoteDescription(description) => {
                peer.engine_remote = Some(description.clone());
                let next = peer.session.remote_description_set(description).unwrap();
                perform(peer, next);
            }
            Action::ApplyCandidate(candidate) | Action::ApplyBufferedCandidate(candidate) => {
                assert!(peer.engine_remote.is_some());
                peer.applied.push(candidate);
            }
            Action::SendSignal(signal) => {
                let mut delivery = signal.begin_delivery().unwrap();
                let url = delivery.request().url.clone();
                let body = delivery.request().body.clone().into_bytes();
                assert_eq!(delivery.record_attempt(true), Verdict::Delivered);
                let rest = url.strip_prefix("http://").unwrap().to_string();
                let slash = rest.find('/').unwrap();
                peer.outbox.push((rest[..slash].to_string(), rest[slash..].to_string(), body));
            }
            Action::SendText(text) => {
                peer.sent_texts.push(text.into_bytes());
            }
            Action::ReleaseDataChannel | Action::CloseEngine => {}
        }
    }
}

/// Hands every message in `from`'s outbox to `to`, as an HTTP POST.
fn deliver(from: &mut Peer, to: &mut Peer) -> Vec<Reply> {
    let mut replies = Vec::new();
    let messages: Vec<(String, String, Vec<u8>)> = from.outbox.drain(..).collect();
    for (address, path, body) in messages {
        assert_eq!(address, to.address);
        let handled = match to.session.remote_handler("POST", &path, Some(body)) {
            None => None,
            Some(Ok(actions)) => {
                perform(to, actions);
                Some(Ok(()))
            }
            Some(Err(e)) => Some(Err(e)),
        };
        replies.push(Reply::for_handled(handled));
    }
    replies
}

#[test]
fn offerer_and_answerer_connect_and_exchange_a_message() {
    let mut a = peer("127.0.0.1:8080", "127.0.0.1:8081", SessionRole::Offerer, "sdp-of-a");
    let mut b = peer("127.0.0.1:8081", "127.0.0.1:8080", SessionRole::Answerer, "sdp-of-b");

    let start_b = b.session.handle_answer_mode().unwrap();
    perform(&mut b, start_b);
    assert_eq!(b.session.phase(), Phase::AwaitingOffer);
    assert!(b.outbox.is_empty());

    let start_a = a.session.handle_offer_mode().unwrap();
    perform(&mut a, start_a);
    assert_eq!(a.session.phase(), Phase::Offering);
    assert_eq!(a.outbox.len(), 1);
    assert_eq!(a.outbox[0].1, "/sdp");

    let replies = deliver(&mut a, &mut b);
    assert_eq!(replies.len(), 1);
    assert_eq!(replies[0].status, 200);
    let offer = SessionDescription { kind: SdpKind::Offer, sdp: "sdp-of-a".to_string() };
    let answer = SessionDescription { kind: SdpKind::Answer, sdp: "sdp-of-b".to_string() };
    assert_eq!(b.engine_remote, Some(offer.clone()));
    assert_eq!(b.engine_local, Some(answer.clone()));
    assert!(b.applied.is_empty());
    assert_eq!(b.session.phase(), Phase::DescriptionExchanged);
    assert_eq!(b.outbox.len(), 1);

    let replies = deliver(&mut b, &mut a);
    assert_eq!(replies.len(), 1);
    assert_eq!(replies[0].status, 200);
    assert_eq!(a.engine_remote, Some(answer));
    assert_eq!(a.engine_local, Some(offer));
    assert_eq!(a.session.phase(), Phase::DescriptionExchanged);
    assert!(a.outbox.is_empty());

    b.session.set_data_channel().unwrap();
    a.session.wait_for_connection(ConnectionState::Connected, 1);
    b.session.wait_for_connection(ConnectionState::Connected, 1);
    assert_eq!(a.session.phase(), Phase::Connected);
    assert_eq!(b.session.phase(), Phase::Connected);

    let typed = match console_command("hello from a".to_string()) {
        ConsoleCommand::Send(line) => line,
        ConsoleCommand::Quit => panic!("the line is no quit command"),
    };
    let send = a.session.send_message(typed).unwrap();
    perform(&mut a, send);
    assert_eq!(a.sent_texts.len(), 1);
    let received = inbound_message(a.sent_texts[0].clone());
    assert_eq!(received, Ok("hello from a".to_string()));
}

#[test]
fn candidate_that_arrives_before_the_offer_is_applied_after_it() {
    let mut a = peer("127.0.0.1:8080", "127.0.0.1:8081", SessionRole::Offerer, "sdp-of-a");
    let mut b = peer("127.0.0.1:8081", "127.0.0.1:8080", SessionRole::Answerer, "sdp-of-b");
    let start_b = b.session.handle_answer_mode().unwrap();
    perform(&mut b, start_b);

    let early = b.session.remote_handler(
        "POST",
        "/candidate",
        Some(
            b"{\"candidate\":\"candidate:early\",\"sdpMid\":\"0\",\"sdpMLineIndex\":0}"
                .to_vec(),
        ),
    );
    assert_eq!(early, Some(Ok(vec![])));
    assert!(b.applied.is_empty());
    assert_eq!(b.session.get_pending_candidates().len(), 1);

    let start_a = a.session.handle_offer_mode().unwrap();
    perform(&mut a, start_a);
    let replies = deliver(&mut a, &mut b);
    assert_eq!(replies[0].status, 200);
    assert_eq!(
        b.applied,
        vec![IceCandidate {
            candidate: "candidate:early".to_string(),
            sdp_mid: Some("0".to_string()),
            sdp_mline_index: Some(0),
            username_fragment: None,
        }]
    );
    assert!(b.session.get_pending_candidates().is_empty());
}

#[test]
fn local_candidates_reach_the_remote_peer_once_descriptions_are_set() {
    let mut a = peer("127.0.0.1:8080", "127.0.0.1:8081", SessionRole::Offerer, "sdp-of-a");
    let mut b = peer("127.0.0.1:8081", "127.0.0.1:8080", SessionRole::Answerer, "sdp-of-b");
    let start_b = b.session.handle_answer_mode().unwrap();
    perform(&mut b, start_b);
    let start_a = a.session.handle_offer_mode().unwrap();
    perform(&mut a, start_a);
    deliver(&mut a, &mut b);
    deliver(&mut b, &mut a);

    let gathered = IceCandidate {
        candidate: "candidate:from-b".to_string(),
        sdp_mid: Some("0".to_string()),
        sdp_mline_index: Some(0),
        username_fragment: Some("frag".to_string()),
    };
    let signal = b.session.handle_local_candidate(gathered.clone()).unwrap();
    perform(&mut b, signal);
    assert_eq!(b.outbox.len(), 1);
    assert_eq!(b.outbox[0].1, "/candidate");
    let replies = deliver(&mut b, &mut a);
    assert_eq!(replies[0].status, 200);
    assert_eq!(a.applied, vec![gathered]);
}

#[test]
fn candidates_gathered_before_the_answer_reach_the_remote_peer_and_no_engine_of_their_own() {
    let mut a = peer("127.0.0.1:8080", "127.0.0.1:8081", SessionRole::Offerer, "sdp-of-a");
    let mut b = peer("127.0.0.1:8081", "127.0.0.1:8080", SessionRole::Answerer, "sdp-of-b");
    let start_b = b.session.handle_answer_mode().unwrap();
    perform(&mut b, start_b);
    let start_a = a.session.handle_offer_mode().unwrap();
    perform(&mut a, start_a);

    let gathered = IceCandidate {
        candidate: "candidate:from-a".to_string(),
        sdp_mid: Some("0".to_string()),
        sdp_mline_index: Some(0),
        username_fragment: None,
    };
    let kept = a.session.handle_local_candidate(gathered.clone()).unwrap();
    perform(&mut a, kept);
    assert!(a.session.get_pending_candidates().is_empty());
    assert_eq!(a.session.get_unsent_candidates(), vec![gathered.clone()]);

    deliver(&mut a, &mut b);
    deliver(&mut b, &mut a);
    assert!(a.applied.is_empty());
    assert!(a.session.get_unsent_candidates().is_empty());
    assert_eq!(a.outbox.len(), 1);
    assert_eq!(a.outbox[0].1, "/candidate");
    let replies = deliver(&mut a, &mut b);
    assert_eq!(replies[0].status, 200);
    assert_eq!(b.applied, vec![gathered]);
}

#[test]
fn request_to_an_unknown_path_is_answered_404_and_the_server_goes_on() {
    let mut a = peer("127.0.0.1:8080", "127.0.0.1:8081", SessionRole::Offerer, "sdp-of-a");
    let mut b = peer("127.0.0.1:8081", "127.0.0.1:8080", SessionRole::Answerer, "sdp-of-b");
    a.outbox.push(("127.0.0.1:8081".to_string(), "/other".to_string(), b"{}".to_vec()));
    a.outbox.push(("127.0.0.1:8081".to_string(), "/sdp".to_string(), b"oops".to_vec()));
    a.outbox.push((
        "127.0.0.1:8081".to_string(),
        "/sdp".to_string(),
        b"{\"type\":\"offer\",\"sdp\":\"o\"}".to_vec(),
    ));
    let replies = deliver(&mut a, &mut b);
    assert_eq!(replies[0], Reply { status: 404, body: String::new() });
    assert_eq!(replies[1].status, 500);
    assert_eq!(replies[1].body, "Error: Failed to deserialize signaling payload");
    assert_eq!(replies[2], Reply { status: 200, body: String::new() });
    assert!(b.session.is_remote_description_set());
}
