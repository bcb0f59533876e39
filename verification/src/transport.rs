//! The signaling transport: which inbound request reaches which operation,
//! what is answered, what an outbound request looks like and how often its
//! delivery is tried.

use vstd::prelude::*;
use vstd::string::StringExecFns;
use crate::codec::{candidate_body, description_body, encode_candidate, encode_session_description};
use crate::error::{error_text, SignalError};
use crate::session::{IceCandidate, IceCandidateView, SessionDescription, SessionDescriptionView};
use crate::text::same_text;

verus! {

/// The two kinds of signaling message.
#[derive(Debug, Clone, Copy, PartialEq, Eq, Structural)]
pub enum SignalKind {
    Sdp,
    Candidate,
}

/// The operation an inbound request is meant for.
#[derive(Debug, Clone, Copy, PartialEq, Eq, Structural)]
pub enum Route {
    Candidate,
    Sdp,
    NotFound,
}

/// Number of delivery attempts after which a signaling message is given up.
pub const MAX_ATTEMPTS: u32 = 5;

/// Seconds to wait between two delivery attempts.
pub const RETRY_DELAY_SECS: u64 = 1;

/// The path segment that names a kind of message.
pub open spec fn kind_path(kind: SignalKind) -> Seq<char> {
    match kind {
        SignalKind::Sdp => "sdp"@,
        SignalKind::Candidate => "candidate"@,
    }
}

/// The route of a request: `POST /candidate` and `POST /sdp` reach their
/// operation, every other method or path reaches none.
pub open spec fn route_of(method: Seq<char>, path: Seq<char>) -> Route {
    if method == "POST"@ && path == "/candidate"@ {
        Route::Candidate
    } else if method == "POST"@ && path == "/sdp"@ {
        Route::Sdp
    } else {
        Route::NotFound
    }
}

/// The address an outbound message of a kind is posted to.
pub open spec fn signal_url(address: Seq<char>, kind: SignalKind) -> Seq<char> {
    "http://"@ + address + "/"@ + kind_path(kind)
}

/// Resolves the method and path of an inbound request.
pub fn route(method: &str, path: &str) -> (r: Route)
    ensures
        r == route_of(method@, path@),
{
    if !same_text(method, "POST") {
        Route::NotFound
    } else if same_text(path, "/candidate") {
        Route::Candidate
    } else if same_text(path, "/sdp") {
        Route::Sdp
    } else {
        Route::NotFound
    }
}

/// The answer to an inbound request.
#[derive(Debug, PartialEq, Eq)]
pub struct Reply {
    pub status: u16,
    pub body: String,
}

/// Mathematical value of a [`Reply`].
pub struct ReplyView {
    pub status: u16,
    pub body: Seq<char>,
}

impl View for Reply {
    type V = ReplyView;

    open spec fn view(&self) -> ReplyView {
        ReplyView { status: self.status, body: self.body@ }
    }
}

/// The answer to a request that reached an operation: 200 with an empty
/// body where the operation went through, 500 with the failure's text
/// where it did not.
pub open spec fn reply_to(outcome: Result<(), SignalError>) -> ReplyView {
    match outcome {
        Ok(_) => ReplyView { status: 200, body: Seq::empty() },
        Err(e) => ReplyView { status: 500, body: "Error: "@ + error_text(e) },
    }
}

/// The answer to a request that reached no operation: 404, empty.
pub open spec fn reply_not_found() -> ReplyView {
    ReplyView { status: 404, body: Seq::empty() }
}

/// The answer to an inbound request: 404 where it was not taken up,
/// otherwise by the outcome of its operation.
pub open spec fn reply_to_handled(handled: Option<Result<(), SignalError>>) -> ReplyView {
    match handled {
        None => reply_not_found(),
        Some(outcome) => reply_to(outcome),
    }
}

impl Reply {
    /// The answer to an inbound request, from whether it was taken up and
    /// how its operation ended.
    pub fn for_handled(handled: Option<Result<(), SignalError>>) -> (reply: Reply)
        ensures
            reply@ == reply_to_handled(handled),
    {
        match handled {
            None => Reply::not_found(),
            Some(outcome) => Reply::for_outcome(outcome),
        }
    }

    /// The answer to a request whose operation ended as `outcome` says.
    pub fn for_outcome(outcome: Result<(), SignalError>) -> (reply: Reply)
        ensures
            reply@ == reply_to(outcome),
    {
        match outcome {
            Ok(_) => Reply { status: 200, body: String::new() },
            Err(e) => Reply {
                status: 500,
                body: String::from_str("Error: ").concat(e.message().as_str()),
            },
        }
    }

    /// The answer to a request that reached no operation.
    pub fn not_found() -> (reply: Reply)
        ensures
            reply@ == reply_not_found(),
    {
        Reply { status: 404, body: String::new() }
    }
}

impl SignalKind {
    /// The path segment that names this kind of message.
    pub fn path(self) -> (r: String)
        ensures
            r@ == kind_path(self),
    {
        match self {
            SignalKind::Sdp => String::from_str("sdp"),
            SignalKind::Candidate => String::from_str("candidate"),
        }
    }
}

/// An outbound signaling message: a JSON body to be posted to the remote
/// endpoint.
#[derive(Debug, PartialEq, Eq)]
pub struct SignalRequest {
    pub kind: SignalKind,
    pub url: String,
    pub body: String,
}

/// Mathematical value of a [`SignalRequest`].
pub struct SignalRequestView {
    pub kind: SignalKind,
    pub url: Seq<char>,
    pub body: Seq<char>,
}

impl View for SignalRequest {
    type V = SignalRequestView;

    open spec fn view(&self) -> SignalRequestView {
        SignalRequestView { kind: self.kind, url: self.url@, body: self.body@ }
    }
}

impl Clone for SignalRequest {
    fn clone(&self) -> (r: Self)
        ensures
            r == *self,
    {
        SignalRequest { kind: self.kind, url: self.url.clone(), body: self.body.clone() }
    }
}

/// The request that carries `body` as a message of `kind` to `address`.
pub open spec fn signal_request(address: Seq<char>, kind: SignalKind, body: Seq<char>) -> SignalRequestView {
    SignalRequestView { kind, url: signal_url(address, kind), body }
}

impl SignalRequest {
    /// The request that carries `body` as a message of `kind` to `address`.
    pub fn new(address: &str, kind: SignalKind, body: String) -> (request: SignalRequest)
        ensures
            request@ == signal_request(address@, kind, body@),
    {
        let url = String::from_str("http://").concat(address).concat("/").concat(
            kind.path().as_str(),
        );
        SignalRequest { kind, url, body }
    }

    /// The HTTP method of every signaling request.
    pub fn method() -> (r: String)
        ensures
            r@ == "POST"@,
    {
        String::from_str("POST")
    }

    /// The content type of every signaling request.
    pub fn content_type() -> (r: String)
        ensures
            r@ == "application/json; charset=utf-8"@,
    {
        String::from_str("application/json; charset=utf-8")
    }
}

/// What to do after a delivery attempt.
#[derive(Debug, Clone, Copy, PartialEq, Eq, Structural)]
pub enum Verdict {
    /// The message reached the remote endpoint.
    Delivered,
    /// The attempt failed: wait this many seconds, then try again.
    RetryAfter(u64),
    /// The last allowed attempt failed: the message is lost.
    GiveUp,
}

/// Mathematical value of a [`Delivery`]: how many attempts failed, and
/// whether one went through.
pub struct DeliveryState {
    pub failures: nat,
    pub delivered: bool,
}

/// A delivery on which no attempt was made yet.
pub open spec fn fresh_delivery() -> DeliveryState {
    DeliveryState { failures: 0, delivered: false }
}

/// Whether a delivery is over: the message went through, or every allowed
/// attempt failed.
pub open spec fn settled(state: DeliveryState) -> bool {
    state.delivered || state.failures >= MAX_ATTEMPTS
}

/// The delivery after an attempt that the transport carried out
/// (`transport_ok`) or failed to carry out. An attempt on a settled
/// delivery changes nothing.
pub open spec fn after_attempt(state: DeliveryState, transport_ok: bool) -> DeliveryState {
    if settled(state) {
        state
    } else if transport_ok {
        DeliveryState { delivered: true, ..state }
    } else {
        DeliveryState { failures: state.failures + 1, ..state }
    }
}

/// What a delivery in the given state asks for.
pub open spec fn verdict_of(state: DeliveryState) -> Verdict {
    if state.delivered {
        Verdict::Delivered
    } else if state.failures >= MAX_ATTEMPTS {
        Verdict::GiveUp
    } else {
        Verdict::RetryAfter(RETRY_DELAY_SECS)
    }
}

/// The delivery after a series of attempts, in order.
pub open spec fn after_attempts(state: DeliveryState, outcomes: Seq<bool>) -> DeliveryState
    decreases outcomes.len(),
{
    if outcomes.len() == 0 {
        state
    } else {
        after_attempts(after_attempt(state, outcomes[0]), outcomes.drop_first())
    }
}

/// Number of attempts a delivery has used.
pub open spec fn attempts_used(state: DeliveryState) -> nat {
    if state.delivered {
        state.failures + 1
    } else {
        state.failures
    }
}

/// The delivery of one signaling message: the request, and the record of
/// the attempts made so far.
pub struct Delivery {
    request: SignalRequest,
    failures: u32,
    delivered: bool,
}

impl View for Delivery {
    type V = DeliveryState;

    closed spec fn view(&self) -> DeliveryState {
        DeliveryState { failures: self.failures as nat, delivered: self.delivered }
    }
}

impl Delivery {
    /// Never more failures than attempts are allowed.
    pub closed spec fn wf(&self) -> bool {
        self.failures <= MAX_ATTEMPTS
    }

    /// The request this delivery is about.
    pub closed spec fn request_view(&self) -> SignalRequestView {
        self.request@
    }

    /// The request to post at each attempt.
    pub fn request(&self) -> (request: &SignalRequest)
        ensures
            request@ == self.request_view(),
    {
        &self.request
    }

    /// Number of attempts used so far.
    pub fn attempts(&self) -> (n: u32)
        requires
            self.wf(),
        ensures
            n == attempts_used(self@),
    {
        if self.delivered {
            self.failures + 1
        } else {
            self.failures
        }
    }

    /// What the delivery asks for now.
    pub fn verdict(&self) -> (verdict: Verdict)
        ensures
            verdict == verdict_of(self@),
    {
        if self.delivered {
            Verdict::Delivered
        } else if self.failures >= MAX_ATTEMPTS {
            Verdict::GiveUp
        } else {
            Verdict::RetryAfter(RETRY_DELAY_SECS)
        }
    }

    /// Takes note of how an attempt ended and says what to do next: stop
    /// where the transport carried the request out, whatever the status of
    /// the response; try again after the delay while attempts are left;
    /// give up after the last one.
    pub fn record_attempt(&mut self, transport_ok: bool) -> (verdict: Verdict)
        requires
            old(self).wf(),
        ensures
            final(self).wf(),
            final(self)@ == after_attempt(old(self)@, transport_ok),
            final(self).request_view() == old(self).request_view(),
            verdict == verdict_of(final(self)@),
    {
        if !self.delivered && self.failures < MAX_ATTEMPTS {
            if transport_ok {
                self.delivered = true;
            } else {
                self.failures = self.failures + 1;
            }
        }
        self.verdict()
    }

    /// The outcome of a delivery that is over.
    pub fn outcome(&self) -> (r: Option<Result<(), SignalError>>)
        ensures
            r == delivery_outcome(self@),
    {
        if self.delivered {
            Some(Ok(()))
        } else if self.failures >= MAX_ATTEMPTS {
            Some(Err(SignalError::SignalDeliveryFailed))
        } else {
            None
        }
    }
}

/// The outcome of a delivery: success once an attempt went through,
/// `SignalDeliveryFailed` once every allowed attempt failed, none before.
pub open spec fn delivery_outcome(state: DeliveryState) -> Option<Result<(), SignalError>> {
    if state.delivered {
        Some(Ok(()))
    } else if state.failures >= MAX_ATTEMPTS {
        Some(Err(SignalError::SignalDeliveryFailed))
    } else {
        None
    }
}

/// Starts the delivery of `payload` as a message of `kind` to the
/// signaling endpoint at `address`. No attempt is made yet.
pub fn send_request(address: &str, kind: SignalKind, payload: String) -> (delivery: Delivery)
    ensures
        delivery.wf(),
        delivery@ == fresh_delivery(),
        delivery.request_view() == signal_request(address@, kind, payload@),
{
    Delivery { request: SignalRequest::new(address, kind, payload), failures: 0, delivered: false }
}

/// What an outbound signaling message carries.
#[derive(Debug, PartialEq, Eq)]
pub enum SignalPayload {
    Description(SessionDescription),
    Candidate(IceCandidate),
}

/// Mathematical value of a [`SignalPayload`].
pub enum SignalPayloadView {
    Description(SessionDescriptionView),
    Candidate(IceCandidateView),
}

impl View for SignalPayload {
    type V = SignalPayloadView;

    open spec fn view(&self) -> SignalPayloadView {
        match self {
            SignalPayload::Description(d) => SignalPayloadView::Description(d@),
            SignalPayload::Candidate(c) => SignalPayloadView::Candidate(c@),
        }
    }
}

/// A signaling message on its way to the remote peer.
#[derive(Debug, PartialEq, Eq)]
pub struct OutboundSignal {
    /// Host and port of the remote signaling endpoint.
    pub address: String,
    pub payload: SignalPayload,
}

/// Mathematical value of an [`OutboundSignal`].
pub struct OutboundSignalView {
    pub address: Seq<char>,
    pub payload: SignalPayloadView,
}

impl View for OutboundSignal {
    type V = OutboundSignalView;

    open spec fn view(&self) -> OutboundSignalView {
        OutboundSignalView { address: self.address@, payload: self.payload@ }
    }
}

/// The kind of message a payload travels as.
pub open spec fn payload_kind(payload: SignalPayloadView) -> SignalKind {
    match payload {
        SignalPayloadView::Description(_) => SignalKind::Sdp,
        SignalPayloadView::Candidate(_) => SignalKind::Candidate,
    }
}

/// The message body a payload is sent as, where it can be written.
pub open spec fn payload_body(payload: SignalPayloadView) -> Option<Seq<char>> {
    match payload {
        SignalPayloadView::Description(d) => description_body(d),
        SignalPayloadView::Candidate(c) => candidate_body(c),
    }
}

impl OutboundSignal {
    /// The kind of message this signal travels as.
    pub fn kind(&self) -> (kind: SignalKind)
        ensures
            kind == payload_kind(self@.payload),
    {
        match &self.payload {
            SignalPayload::Description(_) => SignalKind::Sdp,
            SignalPayload::Candidate(_) => SignalKind::Candidate,
        }
    }

    /// Writes the message body and starts the delivery of this signal.
    /// Fails with `Encode` exactly where the body cannot be written.
    pub fn begin_delivery(&self) -> (r: Result<Delivery, SignalError>)
        ensures
            match payload_body(self@.payload) {
                Some(body) => r matches Ok(delivery) && delivery.wf() && delivery@
                    == fresh_delivery() && delivery.request_view() == signal_request(
                    self@.address,
                    payload_kind(self@.payload),
                    body,
                ),
                None => r matches Err(e) && e == SignalError::Encode,
            },
    {
        let body = match &self.payload {
            SignalPayload::Description(d) => encode_session_description(d),
            SignalPayload::Candidate(c) => encode_candidate(c),
        };
        match body {
            Ok(body) => Ok(send_request(self.address.as_str(), self.kind(), body)),
            Err(e) => Err(e),
        }
    }
}

/// A delivery that is over stays as it is, whatever is reported afterwards.
pub proof fn lemma_settled_delivery_is_final(state: DeliveryState, outcomes: Seq<bool>)
    requires
        settled(state),
    ensures
        after_attempts(state, outcomes) == state,
    decreases outcomes.len(),
{
    if outcomes.len() > 0 {
        lemma_settled_delivery_is_final(state, outcomes.drop_first());
    }
}

proof fn lemma_first_success_settles(state: DeliveryState, outcomes: Seq<bool>, k: int)
    requires
        !state.delivered,
        0 <= k < outcomes.len(),
        state.failures + k < MAX_ATTEMPTS,
        outcomes[k],
        forall|j: int| 0 <= j < k ==> !outcomes[j],
    ensures
        after_attempts(state, outcomes) == (DeliveryState {
            failures: (state.failures + k) as nat,
            delivered: true,
        }),
    decreases k,
{
    let next = after_attempt(state, outcomes[0]);
    let rest = outcomes.drop_first();
    if k == 0 {
        lemma_settled_delivery_is_final(next, rest);
    } else {
        assert forall|j: int| 0 <= j < k - 1 implies !rest[j] by {
            assert(rest[j] == outcomes[j + 1]);
        }
        assert(rest[k - 1] == outcomes[k]);
        lemma_first_success_settles(next, rest, k - 1);
    }
}

proof fn lemma_failures_exhaust(state: DeliveryState, outcomes: Seq<bool>)
    requires
        !state.delivered,
        state.failures <= MAX_ATTEMPTS,
        outcomes.len() >= MAX_ATTEMPTS - state.failures,
        forall|j: int| 0 <= j < MAX_ATTEMPTS - state.failures ==> !outcomes[j],
    ensures
        after_attempts(state, outcomes) == (DeliveryState {
            failures: MAX_ATTEMPTS as nat,
            delivered: false,
        }),
    decreases MAX_ATTEMPTS - state.failures,
{
    if state.failures == MAX_ATTEMPTS {
        lemma_settled_delivery_is_final(state, outcomes);
    } else {
        let next = after_attempt(state, outcomes[0]);
        let rest = outcomes.drop_first();
        assert forall|j: int| 0 <= j < MAX_ATTEMPTS - next.failures implies !rest[j] by {
            assert(rest[j] == outcomes[j + 1]);
        }
        lemma_failures_exhaust(next, rest);
    }
}

/// If the transport first carries the request out at attempt `k + 1`, and
/// that is one of the allowed attempts, the delivery succeeds with exactly
/// that many attempts used, whatever is reported afterwards.
pub proof fn lemma_delivery_succeeds_at_first_success(outcomes: Seq<bool>, k: int)
    requires
        0 <= k < outcomes.len(),
        k < MAX_ATTEMPTS,
        outcomes[k],
        forall|j: int| 0 <= j < k ==> !outcomes[j],
    ensures
        delivery_outcome(after_attempts(fresh_delivery(), outcomes)) == Some(
            Ok::<(), SignalError>(()),
        ),
        attempts_used(after_attempts(fresh_delivery(), outcomes)) == k + 1,
        attempts_used(after_attempts(fresh_delivery(), outcomes)) <= MAX_ATTEMPTS,
{
    lemma_first_success_settles(fresh_delivery(), outcomes, k);
}

/// If the first allowed attempts all fail, the delivery ends in
/// `SignalDeliveryFailed` with exactly those attempts used, whatever is
/// reported afterwards: no further attempt counts.
pub proof fn lemma_delivery_fails_when_all_attempts_fail(outcomes: Seq<bool>)
    requires
        outcomes.len() >= MAX_ATTEMPTS,
        forall|j: int| 0 <= j < MAX_ATTEMPTS ==> !outcomes[j],
    ensures
        delivery_outcome(after_attempts(fresh_delivery(), outcomes)) == Some(
            Err::<(), SignalError>(SignalError::SignalDeliveryFailed),
        ),
        attempts_used(after_attempts(fresh_delivery(), outcomes)) == MAX_ATTEMPTS,
{
    lemma_failures_exhaust(fresh_delivery(), outcomes);
}

/// While a delivery is not over, it asks for another attempt after the
/// delay; once over, it asks for none.
pub proof fn lemma_verdict_matches_outcome(state: DeliveryState)
    ensures
        verdict_of(state) == Verdict::RetryAfter(RETRY_DELAY_SECS) <==> delivery_outcome(state)
            is None,
        verdict_of(state) == Verdict::Delivered <==> delivery_outcome(state) == Some(
            Ok::<(), SignalError>(()),
        ),
        verdict_of(state) == Verdict::GiveUp <==> delivery_outcome(state) == Some(
            Err::<(), SignalError>(SignalError::SignalDeliveryFailed),
        ),
{
}

} // verus!
