//! The signaling session as a state machine: its state, the events that
//! reach it, and for each event the state that follows and the actions the
//! session asks for.

use vstd::prelude::*;
use crate::codec::{candidate_in, description_in};
use crate::error::SignalError;
use crate::session::{
    local_kind, role_from, ConnectionState, IceCandidateView, Phase, RoleSource,
    SessionDescriptionView, SessionRole,
};
use crate::text::utf8_text;
use crate::transport::{route_of, OutboundSignalView, Route, SignalPayloadView};

verus! {

/// Mathematical value of an action that the session asks its surroundings
/// to carry out.
pub enum ActionView {
    CreateDataChannel,
    AwaitDataChannel,
    CreateOffer,
    CreateAnswer,
    SetLocalDescription(SessionDescriptionView),
    SetRemoteDescription(SessionDescriptionView),
    ApplyCandidate(IceCandidateView),
    ApplyBufferedCandidate(IceCandidateView),
    SendSignal(OutboundSignalView),
    SendText(Seq<char>),
    ReleaseDataChannel,
    CloseEngine,
}

/// What becomes of the running operation when an action fails.
#[derive(Debug, Clone, Copy, PartialEq, Eq, Structural)]
pub enum FailurePolicy {
    /// The operation is abandoned with this error.
    Abort(SignalError),
    /// The failure is logged and the operation goes on.
    LogAndContinue,
}

/// The state of a signaling session.
pub struct SessionState {
    /// The role, once it is fixed.
    pub role: Option<SessionRole>,
    /// Whether the session has taken up its role.
    pub started: bool,
    /// Where outbound signaling messages go, once known.
    pub remote_address: Option<Seq<char>>,
    /// The local description, once it is set.
    pub local: Option<SessionDescriptionView>,
    /// The remote description, once it is set.
    pub remote: Option<SessionDescriptionView>,
    /// Remote candidates that wait for the remote description, in arrival
    /// order.
    pub pending: Seq<IceCandidateView>,
    /// Local candidates that wait to be sent to the remote peer, in the
    /// order in which the engine gathered them.
    pub unsent: Seq<IceCandidateView>,
    /// Whether a data channel is established.
    pub channel_ready: bool,
    /// Whether the connection was seen connected.
    pub connected: bool,
    /// Whether the session was shut down.
    pub closed: bool,
}

/// An event that reaches the session.
pub enum Event {
    /// The role is fixed from its source.
    RoleDetermined(RoleSource),
    /// The remote endpoint's address becomes known.
    RemoteAddressSet(Seq<char>),
    /// The session takes up the offerer's part.
    OfferModeEntered,
    /// The session takes up the answerer's part.
    AnswerModeEntered,
    /// A message body arrived on the session-description endpoint.
    DescriptionReceived(Seq<char>),
    /// The engine took over a remote description.
    RemoteDescriptionSet(SessionDescriptionView),
    /// The engine produced the text of a local description.
    LocalDescriptionCreated(Seq<char>),
    /// The engine took over a local description.
    LocalDescriptionSet(SessionDescriptionView),
    /// A message body arrived on the candidate endpoint.
    CandidateReceived(Seq<char>),
    /// The engine gathered a local candidate.
    LocalCandidateGathered(IceCandidateView),
    /// A data channel was established.
    DataChannelSet,
    /// A text is to be sent over the data channel.
    MessageRequested(Seq<char>),
    /// The engine reported the state of the connection.
    ConnectionObserved(ConnectionState),
    /// The session is shut down.
    CloseRequested,
}

/// The state after an event, and the actions asked for or the error.
pub struct Step {
    pub state: SessionState,
    pub result: Result<Seq<ActionView>, SignalError>,
}

/// The state a session starts in.
pub open spec fn initial_state() -> SessionState {
    SessionState {
        role: None,
        started: false,
        remote_address: None,
        local: None,
        remote: None,
        pending: Seq::empty(),
        unsent: Seq::empty(),
        channel_ready: false,
        connected: false,
        closed: false,
    }
}

/// What holds of every session state that can be reached.
pub open spec fn consistent(s: SessionState) -> bool {
    &&& s.remote is Some ==> s.pending.len() == 0 && s.unsent.len() == 0
    &&& s.closed ==> s.pending.len() == 0 && s.unsent.len() == 0 && !s.channel_ready
    &&& s.started ==> s.role is Some
    &&& s.local matches Some(d) ==> {
        &&& s.role matches Some(role)
        &&& d.kind == local_kind(role)
        &&& role == SessionRole::Offerer ==> s.started
        &&& role == SessionRole::Answerer ==> s.remote is Some
    }
    &&& s.connected ==> s.local is Some && s.remote is Some
}

/// Where a session in the given state stands in the protocol.
pub open spec fn phase_of(s: SessionState) -> Phase {
    if s.closed {
        Phase::Closed
    } else if s.connected {
        Phase::Connected
    } else if s.local is Some && s.remote is Some {
        Phase::DescriptionExchanged
    } else if s.started {
        if s.role == Some(SessionRole::Offerer) {
            Phase::Offering
        } else {
            Phase::AwaitingOffer
        }
    } else if s.role is Some {
        Phase::RoleDetermined
    } else {
        Phase::Idle
    }
}

/// How far along the protocol a phase is.
pub open spec fn phase_rank(phase: Phase) -> nat {
    match phase {
        Phase::Idle => 0,
        Phase::RoleDetermined => 1,
        Phase::Offering => 2,
        Phase::AwaitingOffer => 2,
        Phase::DescriptionExchanged => 3,
        Phase::Connected => 4,
        Phase::Closed => 5,
    }
}

/// The address outbound messages are sent to: empty while unknown.
pub open spec fn address_text(s: SessionState) -> Seq<char> {
    match s.remote_address {
        Some(address) => address,
        None => Seq::empty(),
    }
}

/// An event that is turned down: the state stays as it is.
pub open spec fn rejected(s: SessionState, error: SignalError) -> Step {
    Step { state: s, result: Err(error) }
}

/// An event that is taken: the state that follows and the actions.
pub open spec fn accepted(s: SessionState, actions: Seq<ActionView>) -> Step {
    Step { state: s, result: Ok(actions) }
}

/// Fixing the role. The role is fixed once: a second source is turned
/// down.
pub open spec fn on_role_determined(s: SessionState, source: RoleSource) -> Step {
    if s.closed || s.role is Some {
        rejected(s, SignalError::InvalidState)
    } else {
        accepted(SessionState { role: Some(role_from(source)), ..s }, Seq::empty())
    }
}

/// Learning the remote address. It is set once.
pub open spec fn on_remote_address_set(s: SessionState, address: Seq<char>) -> Step {
    if s.closed || s.remote_address is Some {
        rejected(s, SignalError::InvalidState)
    } else {
        accepted(SessionState { remote_address: Some(address), ..s }, Seq::empty())
    }
}

/// Taking up the offerer's part: a data channel and an offer are asked
/// for.
pub open spec fn on_offer_mode(s: SessionState) -> Step {
    if s.closed || s.started || s.role != Some(SessionRole::Offerer) {
        rejected(s, SignalError::InvalidState)
    } else {
        accepted(
            SessionState { started: true, ..s },
            seq![ActionView::CreateDataChannel, ActionView::CreateOffer],
        )
    }
}

/// Taking up the answerer's part: the session waits for the remote peer to
/// open a data channel. No description is produced.
pub open spec fn on_answer_mode(s: SessionState) -> Step {
    if s.closed || s.started || s.role != Some(SessionRole::Answerer) {
        rejected(s, SignalError::InvalidState)
    } else {
        accepted(SessionState { started: true, ..s }, seq![ActionView::AwaitDataChannel])
    }
}

/// A decoded remote description arrives. It goes to the engine unless the
/// session already has one, or is closed.
pub open spec fn on_description_decoded(s: SessionState, d: SessionDescriptionView) -> Step {
    if s.closed || s.remote is Some {
        rejected(s, SignalError::InvalidState)
    } else {
        accepted(s, seq![ActionView::SetRemoteDescription(d)])
    }
}

/// A message body arrives on the session-description endpoint.
pub open spec fn on_description_received(s: SessionState, body: Seq<char>) -> Step {
    match description_in(body) {
        Some(d) => on_description_decoded(s, d),
        None => rejected(s, SignalError::Decode),
    }
}

/// The actions that apply drained candidates, in their order.
pub open spec fn apply_buffered(candidates: Seq<IceCandidateView>) -> Seq<ActionView> {
    candidates.map_values(|c: IceCandidateView| ActionView::ApplyBufferedCandidate(c))
}

/// The action that follows the drain: an answerer produces its answer.
pub open spec fn answer_if_answerer(role: Option<SessionRole>) -> Seq<ActionView> {
    if role == Some(SessionRole::Answerer) {
        seq![ActionView::CreateAnswer]
    } else {
        Seq::empty()
    }
}

/// The actions that send local candidates to the remote peer, in their
/// order.
pub open spec fn send_unsent(address: Seq<char>, candidates: Seq<IceCandidateView>) -> Seq<
    ActionView,
> {
    candidates.map_values(
        |c: IceCandidateView|
            ActionView::SendSignal(
                OutboundSignalView { address, payload: SignalPayloadView::Candidate(c) },
            ),
    )
}

/// The engine took over the remote description. In one step the
/// description is recorded and the buffer drained: every remote candidate
/// that waited is applied, in arrival order; every local candidate that
/// waited is sent to the remote peer, in the order it was gathered; and an
/// answerer then produces its answer.
pub open spec fn on_remote_description_set(s: SessionState, d: SessionDescriptionView) -> Step {
    if s.closed || s.remote is Some {
        rejected(s, SignalError::InvalidState)
    } else {
        accepted(
            SessionState { remote: Some(d), pending: Seq::empty(), unsent: Seq::empty(), ..s },
            apply_buffered(s.pending) + send_unsent(address_text(s), s.unsent)
                + answer_if_answerer(s.role),
        )
    }
}

/// Whether the session is due to produce its local description: an
/// offerer once it has taken up its part, an answerer once the remote
/// description is set; and each only once.
pub open spec fn local_description_due(s: SessionState) -> bool {
    &&& !s.closed
    &&& s.local is None
    &&& match s.role {
        Some(SessionRole::Offerer) => s.started,
        Some(SessionRole::Answerer) => s.remote is Some,
        None => false,
    }
}

/// The engine produced the text of the local description. The session tags
/// it by its role and hands it back to be set.
pub open spec fn on_local_description_created(s: SessionState, sdp: Seq<char>) -> Step {
    if local_description_due(s) {
        accepted(
            s,
            seq![
                ActionView::SetLocalDescription(
                    SessionDescriptionView { kind: local_kind(s.role->0), sdp },
                ),
            ],
        )
    } else {
        rejected(s, SignalError::InvalidState)
    }
}

/// Whether the local description is sent to the remote peer: an offer
/// always, an answer unless the remote address is unknown or empty.
pub open spec fn description_is_sent(s: SessionState) -> bool {
    s.role == Some(SessionRole::Offerer) || address_text(s).len() > 0
}

/// The engine took over the local description. It is recorded and sent to
/// the remote peer.
pub open spec fn on_local_description_set(s: SessionState, d: SessionDescriptionView) -> Step {
    if local_description_due(s) && d.kind == local_kind(s.role->0) {
        accepted(
            SessionState { local: Some(d), ..s },
            if description_is_sent(s) {
                seq![
                    ActionView::SendSignal(
                        OutboundSignalView {
                            address: address_text(s),
                            payload: SignalPayloadView::Description(d),
                        },
                    ),
                ]
            } else {
                Seq::empty()
            },
        )
    } else {
        rejected(s, SignalError::InvalidState)
    }
}

/// A decoded remote candidate arrives. With a remote description set it
/// is applied at once; before, it is put behind those that wait.
pub open spec fn on_candidate_decoded(s: SessionState, c: IceCandidateView) -> Step {
    if s.remote is Some {
        accepted(s, seq![ActionView::ApplyCandidate(c)])
    } else if s.closed {
        rejected(s, SignalError::InvalidState)
    } else {
        accepted(SessionState { pending: s.pending.push(c), ..s }, Seq::empty())
    }
}

/// A message body arrives on the candidate endpoint.
pub open spec fn on_candidate_received(s: SessionState, body: Seq<char>) -> Step {
    match candidate_in(body) {
        Some(c) => on_candidate_decoded(s, c),
        None => rejected(s, SignalError::Decode),
    }
}

/// The engine gathered a local candidate. With a remote description set it
/// is sent to the remote peer; before, it is kept, behind the local
/// candidates gathered earlier, until the remote description is set. The
/// buffer of remote candidates is never touched.
pub open spec fn on_local_candidate(s: SessionState, c: IceCandidateView) -> Step {
    if s.remote is Some {
        accepted(
            s,
            seq![
                ActionView::SendSignal(
                    OutboundSignalView {
                        address: address_text(s),
                        payload: SignalPayloadView::Candidate(c),
                    },
                ),
            ],
        )
    } else if s.closed {
        rejected(s, SignalError::InvalidState)
    } else {
        accepted(SessionState { unsent: s.unsent.push(c), ..s }, Seq::empty())
    }
}

/// A data channel was established.
pub open spec fn on_data_channel_set(s: SessionState) -> Step {
    if s.closed {
        rejected(s, SignalError::InvalidState)
    } else {
        accepted(SessionState { channel_ready: true, ..s }, Seq::empty())
    }
}

/// A text is to be sent: it goes out over the data channel, if there is
/// one.
pub open spec fn on_message_requested(s: SessionState, text: Seq<char>) -> Step {
    if s.channel_ready {
        accepted(s, seq![ActionView::SendText(text)])
    } else {
        rejected(s, SignalError::ChannelNotReady)
    }
}

/// The engine reported the connection's state. A session that has
/// exchanged its descriptions becomes connected when the engine says so.
pub open spec fn on_connection_observed(s: SessionState, observed: ConnectionState) -> Step {
    if observed == ConnectionState::Connected && !s.closed && s.local is Some && s.remote is Some {
        accepted(SessionState { connected: true, ..s }, Seq::empty())
    } else {
        accepted(s, Seq::empty())
    }
}

/// The session is shut down: the data channel, if any, is released, then
/// the engine is closed, and what still waited is dropped. Shutting down a
/// closed session asks for nothing.
pub open spec fn on_close(s: SessionState) -> Step {
    if s.closed {
        accepted(s, Seq::empty())
    } else {
        accepted(
            SessionState {
                closed: true,
                channel_ready: false,
                pending: Seq::empty(),
                unsent: Seq::empty(),
                ..s
            },
            if s.channel_ready {
                seq![ActionView::ReleaseDataChannel, ActionView::CloseEngine]
            } else {
                seq![ActionView::CloseEngine]
            },
        )
    }
}

/// The state after an event, and the actions asked for or the error.
pub open spec fn step(s: SessionState, event: Event) -> Step {
    match event {
        Event::RoleDetermined(source) => on_role_determined(s, source),
        Event::RemoteAddressSet(address) => on_remote_address_set(s, address),
        Event::OfferModeEntered => on_offer_mode(s),
        Event::AnswerModeEntered => on_answer_mode(s),
        Event::DescriptionReceived(body) => on_description_received(s, body),
        Event::RemoteDescriptionSet(d) => on_remote_description_set(s, d),
        Event::LocalDescriptionCreated(sdp) => on_local_description_created(s, sdp),
        Event::LocalDescriptionSet(d) => on_local_description_set(s, d),
        Event::CandidateReceived(body) => on_candidate_received(s, body),
        Event::LocalCandidateGathered(c) => on_local_candidate(s, c),
        Event::DataChannelSet => on_data_channel_set(s),
        Event::MessageRequested(text) => on_message_requested(s, text),
        Event::ConnectionObserved(observed) => on_connection_observed(s, observed),
        Event::CloseRequested => on_close(s),
    }
}

/// What the running operation ends with when an action fails: nothing
/// where the failure is only logged, otherwise the error that the session
/// or the delivery gave for the failure, or else the error of the policy.
pub open spec fn failure_outcome(
    policy: FailurePolicy,
    session_error: Option<SignalError>,
) -> Option<SignalError> {
    match policy {
        FailurePolicy::LogAndContinue => None,
        FailurePolicy::Abort(error) => match session_error {
            Some(e) => Some(e),
            None => Some(error),
        },
    }
}

/// The kind of failure that is logged when an action fails: the error that
/// the session or the delivery gave, or else the error of the policy, or
/// else a failure of the engine.
pub open spec fn failure_logged(
    policy: FailurePolicy,
    session_error: Option<SignalError>,
) -> SignalError {
    match session_error {
        Some(e) => e,
        None => match policy {
            FailurePolicy::Abort(error) => error,
            FailurePolicy::LogAndContinue => SignalError::Engine,
        },
    }
}

impl FailurePolicy {
    /// What the running operation ends with after a failure under this
    /// policy, if it ends.
    pub fn outcome(self, session_error: Option<SignalError>) -> (r: Option<SignalError>)
        ensures
            r == failure_outcome(self, session_error),
    {
        match self {
            FailurePolicy::LogAndContinue => None,
            FailurePolicy::Abort(error) => match session_error {
                Some(e) => Some(e),
                None => Some(error),
            },
        }
    }

    /// The kind of failure to log after a failure under this policy.
    pub fn logged(self, session_error: Option<SignalError>) -> (r: SignalError)
        ensures
            r == failure_logged(self, session_error),
    {
        match session_error {
            Some(e) => e,
            None => match self {
                FailurePolicy::Abort(error) => error,
                FailurePolicy::LogAndContinue => SignalError::Engine,
            },
        }
    }
}

/// The text of a request body: the body has to have been read in full
/// and to be UTF-8.
pub open spec fn body_text(body: Option<Seq<u8>>) -> Option<Seq<char>> {
    match body {
        Some(bytes) => utf8_text(bytes),
        None => None,
    }
}

/// An inbound request. A request for no known operation is not taken up
/// at all, whatever its body; the body of any other has to be text and
/// goes to the operation that its method and path name.
pub open spec fn on_request(
    s: SessionState,
    method: Seq<char>,
    path: Seq<char>,
    body: Option<Seq<u8>>,
) -> Option<Step> {
    match route_of(method, path) {
        Route::NotFound => None,
        Route::Candidate => Some(
            match body_text(body) {
                Some(text) => on_candidate_received(s, text),
                None => rejected(s, SignalError::Decode),
            },
        ),
        Route::Sdp => Some(
            match body_text(body) {
                Some(text) => on_description_received(s, text),
                None => rejected(s, SignalError::Decode),
            },
        ),
    }
}

/// What becomes of the running operation when an action fails. A candidate
/// from the drained buffer that the engine turns down is logged and the
/// drain goes on; so is a local candidate that cannot be delivered. A
/// description that cannot be delivered ends the operation with
/// `SignalDeliveryFailed`, any other failure with `Engine`.
pub open spec fn failure_policy(action: ActionView) -> FailurePolicy {
    match action {
        ActionView::ApplyBufferedCandidate(_) => FailurePolicy::LogAndContinue,
        ActionView::SendSignal(signal) => match signal.payload {
            SignalPayloadView::Description(_) => FailurePolicy::Abort(
                SignalError::SignalDeliveryFailed,
            ),
            SignalPayloadView::Candidate(_) => FailurePolicy::LogAndContinue,
        },
        _ => FailurePolicy::Abort(SignalError::Engine),
    }
}

} // verus!
