//! The values a signaling session is made of: roles, session descriptions,
//! ICE candidates and the states a session and its connection pass through.

use vstd::prelude::*;
use crate::text::same_text;

verus! {

/// Which side of the offer/answer exchange a peer takes. Fixed once chosen.
#[derive(Debug, Clone, Copy, PartialEq, Eq, Structural)]
pub enum SessionRole {
    Offerer,
    Answerer,
}

/// The tag of a session description.
#[derive(Debug, Clone, Copy, PartialEq, Eq, Structural)]
pub enum SdpKind {
    Offer,
    Answer,
}

/// How the startup probe of the remote endpoint ended.
#[derive(Debug, Clone, Copy, PartialEq, Eq, Structural)]
pub enum ProbeOutcome {
    Reached,
    Refused,
    TimedOut,
}

/// Where a peer's role comes from.
#[derive(Debug, Clone, Copy, PartialEq, Eq, Structural)]
pub enum RoleSource {
    /// The role was configured explicitly.
    Configured(SessionRole),
    /// The role follows from probing the remote endpoint.
    Probed(ProbeOutcome),
}

/// State of the peer-to-peer connection, as its engine reports it.
#[derive(Debug, Clone, Copy, PartialEq, Eq, Structural)]
pub enum ConnectionState {
    New,
    Connecting,
    Connected,
    Disconnected,
    Failed,
    Closed,
}

/// Where a session stands in the signaling protocol.
#[derive(Debug, Clone, Copy, PartialEq, Eq, Structural)]
pub enum Phase {
    Idle,
    RoleDetermined,
    Offering,
    AwaitingOffer,
    DescriptionExchanged,
    Connected,
    Closed,
}

/// The role a source gives: a configured role stands; a probe that reached
/// the remote endpoint makes this peer the offerer, any other probe outcome
/// the answerer.
pub open spec fn role_from(source: RoleSource) -> SessionRole {
    match source {
        RoleSource::Configured(role) => role,
        RoleSource::Probed(ProbeOutcome::Reached) => SessionRole::Offerer,
        RoleSource::Probed(_) => SessionRole::Answerer,
    }
}

/// The kind of description a peer in `role` produces itself.
pub open spec fn local_kind(role: SessionRole) -> SdpKind {
    match role {
        SessionRole::Offerer => SdpKind::Offer,
        SessionRole::Answerer => SdpKind::Answer,
    }
}

/// The role that a mode setting asks for, if it asks for one: `offer` and
/// `answer` name a role, every other text leaves the choice to the probe.
pub open spec fn mode_role(mode: Seq<char>) -> Option<SessionRole> {
    if mode == "offer"@ {
        Some(SessionRole::Offerer)
    } else if mode == "answer"@ {
        Some(SessionRole::Answerer)
    } else {
        None
    }
}

impl SessionRole {
    /// The role that a mode setting names, if it names one.
    pub fn from_mode(mode: &str) -> (role: Option<SessionRole>)
        ensures
            role == mode_role(mode@),
    {
        if same_text(mode, "offer") {
            Some(SessionRole::Offerer)
        } else if same_text(mode, "answer") {
            Some(SessionRole::Answerer)
        } else {
            None
        }
    }

    /// The role a source gives.
    pub fn determine(source: RoleSource) -> (role: SessionRole)
        ensures
            role == role_from(source),
    {
        match source {
            RoleSource::Configured(role) => role,
            RoleSource::Probed(ProbeOutcome::Reached) => SessionRole::Offerer,
            RoleSource::Probed(_) => SessionRole::Answerer,
        }
    }

    /// The kind of description this role produces.
    pub fn local_kind(self) -> (kind: SdpKind)
        ensures
            kind == local_kind(self),
    {
        match self {
            SessionRole::Offerer => SdpKind::Offer,
            SessionRole::Answerer => SdpKind::Answer,
        }
    }
}

/// Negotiated session parameters, tagged as an offer or an answer.
#[derive(Debug, PartialEq, Eq)]
pub struct SessionDescription {
    pub kind: SdpKind,
    pub sdp: String,
}

/// Mathematical value of a [`SessionDescription`].
pub struct SessionDescriptionView {
    pub kind: SdpKind,
    pub sdp: Seq<char>,
}

impl View for SessionDescription {
    type V = SessionDescriptionView;

    open spec fn view(&self) -> SessionDescriptionView {
        SessionDescriptionView { kind: self.kind, sdp: self.sdp@ }
    }
}

impl Clone for SessionDescription {
    fn clone(&self) -> (r: Self)
        ensures
            r == *self,
    {
        SessionDescription { kind: self.kind, sdp: self.sdp.clone() }
    }
}

/// A proposed network path between the peers.
#[derive(Debug, PartialEq, Eq)]
pub struct IceCandidate {
    pub candidate: String,
    pub sdp_mid: Option<String>,
    pub sdp_mline_index: Option<u16>,
    pub username_fragment: Option<String>,
}

/// Mathematical value of an [`IceCandidate`].
pub struct IceCandidateView {
    pub candidate: Seq<char>,
    pub sdp_mid: Option<Seq<char>>,
    pub sdp_mline_index: Option<u16>,
    pub username_fragment: Option<Seq<char>>,
}

/// Mathematical value of an optional text.
pub open spec fn optional_text(text: Option<String>) -> Option<Seq<char>> {
    match text {
        Some(t) => Some(t@),
        None => None,
    }
}

impl View for IceCandidate {
    type V = IceCandidateView;

    open spec fn view(&self) -> IceCandidateView {
        IceCandidateView {
            candidate: self.candidate@,
            sdp_mid: optional_text(self.sdp_mid),
            sdp_mline_index: self.sdp_mline_index,
            username_fragment: optional_text(self.username_fragment),
        }
    }
}

/// Copies an optional text.
pub fn copy_optional_text(text: &Option<String>) -> (r: Option<String>)
    ensures
        r == *text,
{
    match text {
        Some(t) => Some(t.clone()),
        None => None,
    }
}

impl Clone for IceCandidate {
    fn clone(&self) -> (r: Self)
        ensures
            r == *self,
    {
        IceCandidate {
            candidate: self.candidate.clone(),
            sdp_mid: copy_optional_text(&self.sdp_mid),
            sdp_mline_index: self.sdp_mline_index,
            username_fragment: copy_optional_text(&self.username_fragment),
        }
    }
}

/// Mathematical value of a sequence of candidates.
pub open spec fn candidates_view(candidates: Seq<IceCandidate>) -> Seq<IceCandidateView> {
    candidates.map_values(|c: IceCandidate| c@)
}

} // verus!
