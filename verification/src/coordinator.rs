//! The session coordinator: the executable signaling state machine. Every
//! operation takes one event, moves the session to the state the model
//! gives for it and returns the actions the model asks for. Performing the
//! actions, on the connection engine and on the network, is left to the
//! caller, who reports back with the next event.

use vstd::prelude::*;
use crate::buffer::CandidateBuffer;
use crate::codec::{parse_candidate, parse_session_description};
use crate::error::SignalError;
use crate::model::{
    address_text, answer_if_answerer, apply_buffered, consistent, failure_policy, initial_state,
    on_answer_mode, on_candidate_decoded, on_candidate_received, on_close,
    on_connection_observed, on_data_channel_set, on_description_decoded,
    on_description_received, on_local_candidate, on_local_description_created,
    on_local_description_set, on_message_requested, on_offer_mode, on_remote_address_set,
    on_remote_description_set, on_request, on_role_determined, phase_of, send_unsent,
    ActionView, FailurePolicy, SessionState, Step,
};
use crate::session::{
    candidates_view, optional_text, ConnectionState, IceCandidate, Phase, RoleSource,
    SessionDescription, SessionDescriptionView, SessionRole,
};
use crate::text::from_utf8;
use crate::transport::{
    route, OutboundSignal, OutboundSignalView, Route, SignalPayload, SignalPayloadView,
};

verus! {

/// Label of the data channel that an offerer opens.
pub const DATA_CHANNEL_LABEL: &'static str = "data";

/// Seconds between two looks at the connection's state, by default.
pub const DEFAULT_POLL_INTERVAL_SECS: u64 = 1;

/// Seconds after which the startup probe of the remote endpoint gives up.
pub const PROBE_TIMEOUT_SECS: u64 = 5;

/// Seconds between two automatic messages.
pub const AUTO_MESSAGE_INTERVAL_SECS: u64 = 5;

/// Number of letters of an automatic message.
pub const AUTO_MESSAGE_LENGTH: usize = 3;

/// An action that the session asks its surroundings to carry out.
#[derive(Debug, PartialEq, Eq)]
pub enum Action {
    /// Open a data channel towards the remote peer.
    CreateDataChannel,
    /// Accept the data channel that the remote peer opens.
    AwaitDataChannel,
    /// Let the engine produce an offer.
    CreateOffer,
    /// Let the engine produce an answer.
    CreateAnswer,
    /// Hand the engine the local description.
    SetLocalDescription(SessionDescription),
    /// Hand the engine the remote description.
    SetRemoteDescription(SessionDescription),
    /// Hand the engine a remote candidate that just arrived.
    ApplyCandidate(IceCandidate),
    /// Hand the engine a remote candidate that waited in the buffer.
    ApplyBufferedCandidate(IceCandidate),
    /// Deliver a signaling message to the remote peer.
    SendSignal(OutboundSignal),
    /// Send a text over the data channel.
    SendText(String),
    /// Release the data channel.
    ReleaseDataChannel,
    /// Close the engine and release what it holds.
    CloseEngine,
}

impl View for Action {
    type V = ActionView;

    open spec fn view(&self) -> ActionView {
        match self {
            Action::CreateDataChannel => ActionView::CreateDataChannel,
            Action::AwaitDataChannel => ActionView::AwaitDataChannel,
            Action::CreateOffer => ActionView::CreateOffer,
            Action::CreateAnswer => ActionView::CreateAnswer,
            Action::SetLocalDescription(d) => ActionView::SetLocalDescription(d@),
            Action::SetRemoteDescription(d) => ActionView::SetRemoteDescription(d@),
            Action::ApplyCandidate(c) => ActionView::ApplyCandidate(c@),
            Action::ApplyBufferedCandidate(c) => ActionView::ApplyBufferedCandidate(c@),
            Action::SendSignal(signal) => ActionView::SendSignal(signal@),
            Action::SendText(text) => ActionView::SendText(text@),
            Action::ReleaseDataChannel => ActionView::ReleaseDataChannel,
            Action::CloseEngine => ActionView::CloseEngine,
        }
    }
}

impl Action {
    /// What becomes of the running operation when this action fails.
    pub fn on_failure(&self) -> (policy: FailurePolicy)
        ensures
            policy == failure_policy(self@),
    {
        match self {
            Action::ApplyBufferedCandidate(_) => FailurePolicy::LogAndContinue,
            Action::SendSignal(signal) => match &signal.payload {
                SignalPayload::Description(_) => FailurePolicy::Abort(
                    SignalError::SignalDeliveryFailed,
                ),
                SignalPayload::Candidate(_) => FailurePolicy::LogAndContinue,
            },
            _ => FailurePolicy::Abort(SignalError::Engine),
        }
    }
}

/// Mathematical value of a list of actions.
pub open spec fn actions_view(actions: Seq<Action>) -> Seq<ActionView> {
    actions.map_values(|a: Action| a@)
}

/// Mathematical value of what an operation of the coordinator returns.
pub open spec fn outcome_view(r: Result<Vec<Action>, SignalError>) -> Result<
    Seq<ActionView>,
    SignalError,
> {
    match r {
        Ok(actions) => Ok(actions_view(actions@)),
        Err(e) => Err(e),
    }
}

/// Mathematical value of an optional session description.
pub open spec fn optional_description(description: Option<SessionDescription>) -> Option<
    SessionDescriptionView,
> {
    match description {
        Some(d) => Some(d@),
        None => None,
    }
}

/// What the connection watcher does after a look at the connection.
#[derive(Debug, Clone, Copy, PartialEq, Eq, Structural)]
pub enum WatchStep {
    /// The connection is up: whoever waited may go on.
    Ready,
    /// The connection is not up: look again after this many seconds.
    PollAfter(u64),
}

/// The watcher goes on exactly when the engine reports `Connected`; in
/// every other state it looks again after the interval. It has no time
/// limit: a connection that never comes up keeps it polling.
pub open spec fn watch_step(observed: ConnectionState, poll_interval_secs: u64) -> WatchStep {
    if observed == ConnectionState::Connected {
        WatchStep::Ready
    } else {
        WatchStep::PollAfter(poll_interval_secs)
    }
}

/// One signaling session.
pub struct Coordinator {
    role: Option<SessionRole>,
    started: bool,
    remote_address: Option<String>,
    local: Option<SessionDescription>,
    remote: Option<SessionDescription>,
    pending: CandidateBuffer,
    unsent: CandidateBuffer,
    channel_ready: bool,
    connected: bool,
    closed: bool,
}

impl View for Coordinator {
    type V = SessionState;

    closed spec fn view(&self) -> SessionState {
        SessionState {
            role: self.role,
            started: self.started,
            remote_address: optional_text(self.remote_address),
            local: optional_description(self.local),
            remote: optional_description(self.remote),
            pending: self.pending@,
            unsent: self.unsent@,
            channel_ready: self.channel_ready,
            connected: self.connected,
            closed: self.closed,
        }
    }
}

fn single(action: Action) -> (actions: Vec<Action>)
    ensures
        actions_view(actions@) == seq![action@],
{
    let mut actions: Vec<Action> = Vec::new();
    actions.push(action);
    actions
}

fn none() -> (actions: Vec<Action>)
    ensures
        actions_view(actions@) == Seq::<ActionView>::empty(),
{
    let actions: Vec<Action> = Vec::new();
    actions
}

impl Coordinator {
    /// Whether the session is in a consistent state. Every session is: a
    /// new one, and each one that an operation leaves behind.
    pub open spec fn wf(&self) -> bool {
        consistent(self@)
    }

    /// A session on which nothing has happened yet.
    pub fn new() -> (session: Coordinator)
        ensures
            session.wf(),
            session@ == initial_state(),
    {
        Coordinator {
            role: None,
            started: false,
            remote_address: None,
            local: None,
            remote: None,
            pending: CandidateBuffer::new(),
            unsent: CandidateBuffer::new(),
            channel_ready: false,
            connected: false,
            closed: false,
        }
    }

    /// The role, once it is fixed.
    pub fn role(&self) -> (role: Option<SessionRole>)
        ensures
            role == self@.role,
    {
        self.role
    }

    /// Where the session stands in the protocol.
    pub fn phase(&self) -> (phase: Phase)
        ensures
            phase == phase_of(self@),
    {
        if self.closed {
            Phase::Closed
        } else if self.connected {
            Phase::Connected
        } else if self.local.is_some() && self.remote.is_some() {
            Phase::DescriptionExchanged
        } else if self.started {
            match self.role {
                Some(SessionRole::Offerer) => Phase::Offering,
                _ => Phase::AwaitingOffer,
            }
        } else if self.role.is_some() {
            Phase::RoleDetermined
        } else {
            Phase::Idle
        }
    }

    /// The address outbound messages go to; empty while it is unknown.
    pub fn get_remote_address(&self) -> (address: String)
        ensures
            address@ == address_text(self@),
    {
        match &self.remote_address {
            Some(address) => address.clone(),
            None => String::new(),
        }
    }

    /// Whether the remote description is set.
    pub fn is_remote_description_set(&self) -> (set: bool)
        ensures
            set == (self@.remote is Some),
    {
        self.remote.is_some()
    }

    /// The local description, once it is set.
    pub fn local_description(&self) -> (description: Option<SessionDescription>)
        ensures
            optional_description(description) == self@.local,
    {
        match &self.local {
            Some(d) => Some(d.clone()),
            None => None,
        }
    }

    /// The remote description, once it is set.
    pub fn remote_description(&self) -> (description: Option<SessionDescription>)
        ensures
            optional_description(description) == self@.remote,
    {
        match &self.remote {
            Some(d) => Some(d.clone()),
            None => None,
        }
    }

    /// Whether a data channel is established.
    pub fn is_channel_ready(&self) -> (ready: bool)
        ensures
            ready == self@.channel_ready,
    {
        self.channel_ready
    }

    /// A copy of the remote candidates that wait for the remote
    /// description, in arrival order.
    pub fn get_pending_candidates(&self) -> (candidates: Vec<IceCandidate>)
        ensures
            candidates_view(candidates@) == self@.pending,
    {
        self.pending.get_pending_candidates()
    }

    /// A copy of the local candidates that wait to be sent, in the order
    /// in which they were gathered.
    pub fn get_unsent_candidates(&self) -> (candidates: Vec<IceCandidate>)
        ensures
            candidates_view(candidates@) == self@.unsent,
    {
        self.unsent.get_pending_candidates()
    }

    /// Fixes the role from its source. Fails with `InvalidState`, and
    /// changes nothing, where the role is already fixed or the session is
    /// closed.
    pub fn determine_role(&mut self, source: RoleSource) -> (r: Result<Vec<Action>, SignalError>)
        requires
            old(self).wf(),
        ensures
            final(self).wf(),
            (Step { state: final(self)@, result: outcome_view(r) }) == on_role_determined(
                old(self)@,
                source,
            ),
    {
        if self.closed || self.role.is_some() {
            return Err(SignalError::InvalidState);
        }
        self.role = Some(SessionRole::determine(source));
        Ok(none())
    }

    /// Makes the remote endpoint's address known. Fails with
    /// `InvalidState`, and changes nothing, where an address was already
    /// given or the session is closed.
    pub fn set_remote_address(&mut self, address: String) -> (r: Result<Vec<Action>, SignalError>)
        requires
            old(self).wf(),
        ensures
            final(self).wf(),
            (Step { state: final(self)@, result: outcome_view(r) }) == on_remote_address_set(
                old(self)@,
                address@,
            ),
    {
        if self.closed || self.remote_address.is_some() {
            return Err(SignalError::InvalidState);
        }
        self.remote_address = Some(address);
        Ok(none())
    }

    /// Takes up the offerer's part. Fails with `InvalidState`, and changes
    /// nothing, unless the session is an offerer that has not started.
    pub fn handle_offer_mode(&mut self) -> (r: Result<Vec<Action>, SignalError>)
        requires
            old(self).wf(),
        ensures
            final(self).wf(),
            (Step { state: final(self)@, result: outcome_view(r) }) == on_offer_mode(old(self)@),
    {
        match self.role {
            Some(SessionRole::Offerer) => {},
            _ => {
                return Err(SignalError::InvalidState);
            },
        }
        if self.closed || self.started {
            return Err(SignalError::InvalidState);
        }
        self.started = true;
        let mut actions: Vec<Action> = Vec::new();
        actions.push(Action::CreateDataChannel);
        actions.push(Action::CreateOffer);
        assert(actions_view(actions@) =~= seq![
            ActionView::CreateDataChannel,
            ActionView::CreateOffer,
        ]);
        Ok(actions)
    }

    /// Takes up the answerer's part. Fails with `InvalidState`, and
    /// changes nothing, unless the session is an answerer that has not
    /// started.
    pub fn handle_answer_mode(&mut self) -> (r: Result<Vec<Action>, SignalError>)
        requires
            old(self).wf(),
        ensures
            final(self).wf(),
            (Step { state: final(self)@, result: outcome_view(r) }) == on_answer_mode(old(self)@),
    {
        match self.role {
            Some(SessionRole::Answerer) => {},
            _ => {
                return Err(SignalError::InvalidState);
            },
        }
        if self.closed || self.started {
            return Err(SignalError::InvalidState);
        }
        self.started = true;
        Ok(single(Action::AwaitDataChannel))
    }
}

impl Coordinator {
    /// Takes a remote description that was read from a message. The
    /// description is to be handed to the engine; nothing is recorded
    /// before the engine has taken it. Fails with `InvalidState` where the
    /// session already has a remote description or is closed.
    pub fn accept_session_description(&self, description: SessionDescription) -> (r: Result<
        Vec<Action>,
        SignalError,
    >)
        requires
            self.wf(),
        ensures
            (Step { state: self@, result: outcome_view(r) }) == on_description_decoded(
                self@,
                description@,
            ),
    {
        if self.closed || self.remote.is_some() {
            return Err(SignalError::InvalidState);
        }
        Ok(single(Action::SetRemoteDescription(description)))
    }

    /// Takes a message body that arrived on the session-description
    /// endpoint. Fails with `Decode` where the body holds no session
    /// description, and otherwise goes on as
    /// [`Coordinator::accept_session_description`].
    pub fn receive_session_description(&self, body: &str) -> (r: Result<Vec<Action>, SignalError>)
        requires
            self.wf(),
        ensures
            (Step { state: self@, result: outcome_view(r) }) == on_description_received(
                self@,
                body@,
            ),
    {
        match parse_session_description(body) {
            Ok(description) => self.accept_session_description(description),
            Err(e) => Err(e),
        }
    }

    /// Records that the engine has taken the remote description, and
    /// drains the buffer in the same step: the actions apply every remote
    /// candidate that waited, in arrival order, send every local candidate
    /// that waited, in the order it was gathered, and then, for an
    /// answerer, ask for the answer. Fails with `InvalidState`, and
    /// changes nothing, where the session already has a remote description
    /// or is closed.
    pub fn remote_description_set(&mut self, description: SessionDescription) -> (r: Result<
        Vec<Action>,
        SignalError,
    >)
        requires
            old(self).wf(),
        ensures
            final(self).wf(),
            (Step { state: final(self)@, result: outcome_view(r) }) == on_remote_description_set(
                old(self)@,
                description@,
            ),
    {
        if self.closed || self.remote.is_some() {
            return Err(SignalError::InvalidState);
        }
        let address = self.get_remote_address();
        let drained = self.pending.drain_all();
        let unsent = self.unsent.drain_all();
        self.remote = Some(description);
        let mut actions: Vec<Action> = Vec::new();
        let mut i: usize = 0;
        while i < drained.len()
            invariant
                i <= drained.len(),
                actions.len() == i,
                forall|j: int|
                    0 <= j < i ==> (#[trigger] actions[j])@ == ActionView::ApplyBufferedCandidate(
                        drained[j]@,
                    ),
            decreases drained.len() - i,
        {
            actions.push(Action::ApplyBufferedCandidate(drained[i].clone()));
            i += 1;
        }
        let mut k: usize = 0;
        while k < unsent.len()
            invariant
                k <= unsent.len(),
                actions.len() == drained.len() + k,
                forall|j: int|
                    0 <= j < drained.len() ==> (#[trigger] actions[j])@
                        == ActionView::ApplyBufferedCandidate(drained[j]@),
                forall|j: int|
                    0 <= j < k ==> (#[trigger] actions[drained.len() + j])@
                        == ActionView::SendSignal(
                        OutboundSignalView {
                            address: address@,
                            payload: SignalPayloadView::Candidate(unsent[j]@),
                        },
                    ),
            decreases unsent.len() - k,
        {
            actions.push(
                Action::SendSignal(
                    OutboundSignal {
                        address: address.clone(),
                        payload: SignalPayload::Candidate(unsent[k].clone()),
                    },
                ),
            );
            k += 1;
        }
        proof {
            let applied = apply_buffered(candidates_view(drained@));
            let sent = send_unsent(address@, candidates_view(unsent@));
            assert(applied.len() == drained.len() && sent.len() == unsent.len());
            assert forall|j: int| 0 <= j < actions.len() implies actions_view(actions@)[j] == (
            applied + sent)[j] by {
                if j >= drained.len() {
                    let at = j - drained.len();
                    assert(actions[drained.len() + at]@ == sent[at]);
                }
            }
            assert(actions_view(actions@) =~= applied + sent);
        }
        match self.role {
            Some(SessionRole::Answerer) => {
                actions.push(Action::CreateAnswer);
            },
            _ => {},
        }
        assert(actions_view(actions@) =~= apply_buffered(old(self)@.pending) + send_unsent(
            address_text(old(self)@),
            old(self)@.unsent,
        ) + answer_if_answerer(old(self)@.role));
        Ok(actions)
    }

    fn local_description_due(&self) -> (due: bool)
        ensures
            due == crate::model::local_description_due(self@),
    {
        !self.closed && self.local.is_none() && match self.role {
            Some(SessionRole::Offerer) => self.started,
            Some(SessionRole::Answerer) => self.remote.is_some(),
            None => false,
        }
    }

    /// Takes the text of the local description that the engine produced,
    /// tags it by the session's role and asks for it to be set. Fails with
    /// `InvalidState` where no local description is due: the session has
    /// one, is closed, has no role, is an offerer that has not started or
    /// an answerer without a remote description.
    pub fn local_description_created(&self, sdp: String) -> (r: Result<Vec<Action>, SignalError>)
        requires
            self.wf(),
        ensures
            (Step { state: self@, result: outcome_view(r) }) == on_local_description_created(
                self@,
                sdp@,
            ),
    {
        if !self.local_description_due() {
            return Err(SignalError::InvalidState);
        }
        match self.role {
            Some(role) => Ok(
                single(
                    Action::SetLocalDescription(SessionDescription { kind: role.local_kind(), sdp }),
                ),
            ),
            None => Err(SignalError::InvalidState),
        }
    }

    /// Records that the engine has taken the local description and asks
    /// for it to be sent to the remote peer. An answerer that does not
    /// know the remote address, or knows an empty one, sends nothing.
    /// Fails with `InvalidState`, and changes nothing, where no local
    /// description is due or the description is not of the kind the role
    /// produces.
    pub fn local_description_set(&mut self, description: SessionDescription) -> (r: Result<
        Vec<Action>,
        SignalError,
    >)
        requires
            old(self).wf(),
        ensures
            final(self).wf(),
            (Step { state: final(self)@, result: outcome_view(r) }) == on_local_description_set(
                old(self)@,
                description@,
            ),
    {
        if !self.local_description_due() {
            return Err(SignalError::InvalidState);
        }
        let role = match self.role {
            Some(role) => role,
            None => {
                return Err(SignalError::InvalidState);
            },
        };
        if description.kind != role.local_kind() {
            return Err(SignalError::InvalidState);
        }
        let address = self.get_remote_address();
        let sent = match role {
            SessionRole::Offerer => true,
            SessionRole::Answerer => !address.as_str().is_empty(),
        };
        let actions = if sent {
            single(
                Action::SendSignal(
                    OutboundSignal {
                        address,
                        payload: SignalPayload::Description(description.clone()),
                    },
                ),
            )
        } else {
            none()
        };
        self.local = Some(description);
        Ok(actions)
    }

    /// Takes a remote candidate that was read from a message. With a
    /// remote description set the candidate is to be applied at once and
    /// the buffer stays empty; before, the candidate is put behind those
    /// that wait. Fails with `InvalidState` where no remote description is
    /// set and the session is closed.
    pub fn accept_candidate(&mut self, candidate: IceCandidate) -> (r: Result<
        Vec<Action>,
        SignalError,
    >)
        requires
            old(self).wf(),
        ensures
            final(self).wf(),
            (Step { state: final(self)@, result: outcome_view(r) }) == on_candidate_decoded(
                old(self)@,
                candidate@,
            ),
    {
        if self.remote.is_some() {
            Ok(single(Action::ApplyCandidate(candidate)))
        } else if self.closed {
            Err(SignalError::InvalidState)
        } else {
            self.pending.add_pending_candidate(candidate);
            Ok(none())
        }
    }

    /// Takes a message body that arrived on the candidate endpoint. Fails
    /// with `Decode`, and changes nothing, where the body holds no
    /// candidate, and otherwise goes on as
    /// [`Coordinator::accept_candidate`].
    pub fn receive_candidate(&mut self, body: &str) -> (r: Result<Vec<Action>, SignalError>)
        requires
            old(self).wf(),
        ensures
            final(self).wf(),
            (Step { state: final(self)@, result: outcome_view(r) }) == on_candidate_received(
                old(self)@,
                body@,
            ),
    {
        match parse_candidate(body) {
            Ok(candidate) => self.accept_candidate(candidate),
            Err(e) => Err(e),
        }
    }

    /// Takes a candidate that the engine gathered. With a remote
    /// description set it is to be sent to the remote peer; before, it is
    /// kept until the remote description is set and sent then. The buffer
    /// of remote candidates stays as it is. Fails with `InvalidState`
    /// where no remote description is set and the session is closed.
    pub fn handle_local_candidate(&mut self, candidate: IceCandidate) -> (r: Result<
        Vec<Action>,
        SignalError,
    >)
        requires
            old(self).wf(),
        ensures
            final(self).wf(),
            (Step { state: final(self)@, result: outcome_view(r) }) == on_local_candidate(
                old(self)@,
                candidate@,
            ),
    {
        if self.remote.is_some() {
            Ok(
                single(
                    Action::SendSignal(
                        OutboundSignal {
                            address: self.get_remote_address(),
                            payload: SignalPayload::Candidate(candidate),
                        },
                    ),
                ),
            )
        } else if self.closed {
            Err(SignalError::InvalidState)
        } else {
            self.unsent.add_pending_candidate(candidate);
            Ok(none())
        }
    }

    /// Records that a data channel is established. Fails with
    /// `InvalidState` on a closed session.
    pub fn set_data_channel(&mut self) -> (r: Result<Vec<Action>, SignalError>)
        requires
            old(self).wf(),
        ensures
            final(self).wf(),
            (Step { state: final(self)@, result: outcome_view(r) }) == on_data_channel_set(
                old(self)@,
            ),
    {
        if self.closed {
            return Err(SignalError::InvalidState);
        }
        self.channel_ready = true;
        Ok(none())
    }

    /// Asks for a text to be sent over the data channel. Fails with
    /// `ChannelNotReady` exactly while no data channel is established.
    pub fn send_message(&self, message: String) -> (r: Result<Vec<Action>, SignalError>)
        requires
            self.wf(),
        ensures
            (Step { state: self@, result: outcome_view(r) }) == on_message_requested(
                self@,
                message@,
            ),
    {
        if self.channel_ready {
            Ok(single(Action::SendText(message)))
        } else {
            Err(SignalError::ChannelNotReady)
        }
    }

    /// Takes one look of the connection watcher at the state the engine
    /// reports, and says whether whoever waits for the connection may go
    /// on or has to look again after the interval.
    pub fn wait_for_connection(
        &mut self,
        observed: ConnectionState,
        poll_interval_secs: u64,
    ) -> (next: WatchStep)
        requires
            old(self).wf(),
        ensures
            final(self).wf(),
            final(self)@ == on_connection_observed(old(self)@, observed).state,
            next == watch_step(observed, poll_interval_secs),
    {
        match observed {
            ConnectionState::Connected => {
                if !self.closed && self.local.is_some() && self.remote.is_some() {
                    self.connected = true;
                }
                WatchStep::Ready
            },
            _ => WatchStep::PollAfter(poll_interval_secs),
        }
    }

    /// Shuts the session down. Closing a closed session changes nothing
    /// and asks for nothing.
    pub fn close(&mut self) -> (r: Result<Vec<Action>, SignalError>)
        requires
            old(self).wf(),
        ensures
            final(self).wf(),
            (Step { state: final(self)@, result: outcome_view(r) }) == on_close(old(self)@),
    {
        if self.closed {
            return Ok(none());
        }
        let mut actions: Vec<Action> = Vec::new();
        if self.channel_ready {
            actions.push(Action::ReleaseDataChannel);
        }
        actions.push(Action::CloseEngine);
        assert(actions_view(actions@) =~= if old(self)@.channel_ready {
            seq![ActionView::ReleaseDataChannel, ActionView::CloseEngine]
        } else {
            seq![ActionView::CloseEngine]
        });
        let _ = self.pending.drain_all();
        let _ = self.unsent.drain_all();
        self.channel_ready = false;
        self.closed = true;
        Ok(actions)
    }
}

/// Mathematical value of an optional request body.
pub open spec fn optional_bytes(body: Option<Vec<u8>>) -> Option<Seq<u8>> {
    match body {
        Some(bytes) => Some(bytes@),
        None => None,
    }
}

/// Mathematical value of what the handling of an inbound request gives:
/// the state it leaves and, where the request was taken up, the outcome.
pub open spec fn handled_view(
    state: SessionState,
    r: Option<Result<Vec<Action>, SignalError>>,
) -> Option<Step> {
    match r {
        Some(outcome) => Some(Step { state, result: outcome_view(outcome) }),
        None => None,
    }
}

impl Coordinator {
    /// Takes an inbound request: resolves its method and path, reads its
    /// body as text and hands it to the operation it is meant for. `body`
    /// is `None` where the body could not be read in full. Returns `None`,
    /// and changes nothing, for a request that is meant for no operation.
    /// A body that could not be read, or is not UTF-8 text, fails with
    /// `Decode`.
    pub fn remote_handler(&mut self, method: &str, path: &str, body: Option<Vec<u8>>) -> (r:
        Option<Result<Vec<Action>, SignalError>>)
        requires
            old(self).wf(),
        ensures
            final(self).wf(),
            handled_view(final(self)@, r) == on_request(
                old(self)@,
                method@,
                path@,
                optional_bytes(body),
            ),
            r is None ==> final(self)@ == old(self)@,
    {
        let routed = route(method, path);
        match routed {
            Route::NotFound => {
                return None;
            },
            _ => {},
        }
        let text = match body {
            Some(bytes) => from_utf8(bytes),
            None => None,
        };
        match text {
            None => Some(Err(SignalError::Decode)),
            Some(text) => match routed {
                Route::Candidate => Some(self.receive_candidate(text.as_str())),
                _ => Some(self.receive_session_description(text.as_str())),
            },
        }
    }
}

} // verus!
