//! What holds of every signaling session, whatever events reach it.

use vstd::prelude::*;
use crate::codec::{candidate_in, description_in};
use crate::error::SignalError;
use crate::model::{
    accepted, address_text, answer_if_answerer, apply_buffered, body_text, consistent,
    initial_state,
    on_request, phase_of, phase_rank, rejected, send_unsent, step, ActionView, Event,
    SessionState,
};
use crate::transport::{reply_not_found, reply_to, route_of, Route};
use crate::session::{IceCandidateView, SessionDescriptionView};

verus! {

/// The state after a series of events, in order.
pub open spec fn after_events(s: SessionState, events: Seq<Event>) -> SessionState
    decreases events.len(),
{
    if events.len() == 0 {
        s
    } else {
        after_events(step(s, events[0]).state, events.drop_first())
    }
}

/// A session starts in a consistent state.
pub proof fn lemma_initial_state_is_consistent()
    ensures
        consistent(initial_state()),
{
}

/// No event leads out of the consistent states. In particular the buffer
/// holds candidates only while the remote description is unset.
pub proof fn lemma_step_keeps_consistency(s: SessionState, event: Event)
    requires
        consistent(s),
    ensures
        consistent(step(s, event).state),
{
}

/// An event that is turned down leaves the session as it was: a failed
/// request has no effect on the requests that follow.
pub proof fn lemma_rejected_event_changes_nothing(s: SessionState, event: Event)
    requires
        step(s, event).result is Err,
    ensures
        step(s, event).state == s,
{
}

/// What is set once stays as it is: no event changes a role, a remote
/// address, a local or a remote description that the session has.
pub proof fn lemma_set_once(s: SessionState, event: Event)
    ensures
        s.role is Some ==> step(s, event).state.role == s.role,
        s.remote_address is Some ==> step(s, event).state.remote_address == s.remote_address,
        s.local is Some ==> step(s, event).state.local == s.local,
        s.remote is Some ==> step(s, event).state.remote == s.remote,
{
}

/// No event takes a session back to an earlier phase.
pub proof fn lemma_phase_never_goes_back(s: SessionState, event: Event)
    requires
        consistent(s),
    ensures
        phase_rank(phase_of(step(s, event).state)) >= phase_rank(phase_of(s)),
{
}

/// Once the remote description is set, a candidate that arrives is applied
/// at once, and the session stays as it is: the buffer is not filled.
pub proof fn lemma_candidate_after_description_is_applied(
    s: SessionState,
    body: Seq<char>,
    candidate: IceCandidateView,
)
    requires
        s.remote is Some,
        candidate_in(body) == Some(candidate),
    ensures
        step(s, Event::CandidateReceived(body)) == accepted(
            s,
            seq![ActionView::ApplyCandidate(candidate)],
        ),
{
}

/// Once the remote description is set, it stays set and the buffer stays
/// empty, whatever events follow.
pub proof fn lemma_buffer_stays_empty_once_description_is_set(
    s: SessionState,
    events: Seq<Event>,
)
    requires
        consistent(s),
        s.remote is Some,
    ensures
        consistent(after_events(s, events)),
        after_events(s, events).remote == s.remote,
        after_events(s, events).pending.len() == 0,
        after_events(s, events).unsent.len() == 0,
    decreases events.len(),
{
    if events.len() > 0 {
        let next = step(s, events[0]).state;
        lemma_step_keeps_consistency(s, events[0]);
        lemma_set_once(s, events[0]);
        lemma_buffer_stays_empty_once_description_is_set(next, events.drop_first());
    }
}

/// A candidate that arrives before the remote description waits in the
/// buffer, behind those that came before it; when the engine then takes
/// the remote description, every candidate that waited is applied, in
/// arrival order and the late one last, and none is left in the buffer.
pub proof fn lemma_buffered_candidate_is_applied_with_description(
    s: SessionState,
    body: Seq<char>,
    candidate: IceCandidateView,
    description: SessionDescriptionView,
)
    requires
        s.remote is None,
        !s.closed,
        candidate_in(body) == Some(candidate),
    ensures
        ({
            let buffered = step(s, Event::CandidateReceived(body));
            let drained = step(buffered.state, Event::RemoteDescriptionSet(description));
            &&& buffered.result == Ok::<Seq<ActionView>, SignalError>(Seq::empty())
            &&& buffered.state.pending == s.pending.push(candidate)
            &&& drained.state.pending.len() == 0
            &&& drained.state.remote == Some(description)
            &&& drained.result matches Ok(actions)
            &&& actions.len() >= s.pending.len() + 1
            &&& actions.take((s.pending.len() + 1) as int) == apply_buffered(s.pending.push(candidate))
            &&& actions[s.pending.len() as int] == ActionView::ApplyBufferedCandidate(candidate)
        }),
{
    let buffered = step(s, Event::CandidateReceived(body));
    let drained = step(buffered.state, Event::RemoteDescriptionSet(description));
    let waiting = s.pending.push(candidate);
    let actions = drained.result->Ok_0;
    assert(buffered.state.pending == waiting);
    assert(actions.take(waiting.len() as int) =~= apply_buffered(waiting));
    assert(apply_buffered(waiting)[s.pending.len() as int] == ActionView::ApplyBufferedCandidate(
        candidate,
    ));
}

/// A candidate that the engine gathers never enters the buffer of remote
/// candidates, in whatever state the session is: so none is ever applied
/// to the engine that gathered it.
pub proof fn lemma_local_candidate_leaves_the_buffer(s: SessionState, candidate: IceCandidateView)
    ensures
        step(s, Event::LocalCandidateGathered(candidate)).state.pending == s.pending,
{
}

/// A candidate that the engine gathers before the remote description is
/// set is kept behind the local candidates gathered earlier; when the
/// engine then takes the remote description, the remote candidates that
/// waited are applied, the local ones are sent to the remote peer in the
/// order they were gathered, the late one last, and none is kept.
pub proof fn lemma_local_candidate_is_sent_with_description(
    s: SessionState,
    candidate: IceCandidateView,
    description: SessionDescriptionView,
)
    requires
        s.remote is None,
        !s.closed,
    ensures
        ({
            let kept = step(s, Event::LocalCandidateGathered(candidate));
            let drained = step(kept.state, Event::RemoteDescriptionSet(description));
            &&& kept.result == Ok::<Seq<ActionView>, SignalError>(Seq::empty())
            &&& kept.state.unsent == s.unsent.push(candidate)
            &&& drained.state.unsent.len() == 0
            &&& drained.state.pending.len() == 0
            &&& drained.result == Ok::<Seq<ActionView>, SignalError>(
                apply_buffered(s.pending) + send_unsent(
                    address_text(s),
                    s.unsent.push(candidate),
                ) + answer_if_answerer(s.role),
            )
        }),
{
}

/// Before any data channel is established a message is turned down with
/// `ChannelNotReady`.
pub proof fn lemma_message_before_channel_fails(s: SessionState, text: Seq<char>)
    requires
        !s.channel_ready,
    ensures
        step(s, Event::MessageRequested(text)).result == Err::<Seq<ActionView>, SignalError>(
            SignalError::ChannelNotReady,
        ),
{
}

/// After a data channel was established a message goes out.
pub proof fn lemma_message_after_channel_goes_out(s: SessionState, text: Seq<char>)
    requires
        step(s, Event::DataChannelSet).result is Ok,
    ensures
        step(step(s, Event::DataChannelSet).state, Event::MessageRequested(text)).result == Ok::<
            Seq<ActionView>,
            SignalError,
        >(seq![ActionView::SendText(text)]),
{
}

/// A request whose method and path name no operation is not taken up,
/// and is answered 404.
pub proof fn lemma_unknown_request_is_not_found(
    s: SessionState,
    method: Seq<char>,
    path: Seq<char>,
    body: Option<Seq<u8>>,
)
    requires
        !(method == "POST"@ && (path == "/sdp"@ || path == "/candidate"@)),
    ensures
        route_of(method, path) == Route::NotFound,
        on_request(s, method, path, body) is None,
        reply_not_found().status == 404,
{
}

/// A body on the session-description endpoint that holds no session
/// description is turned down with `Decode`, which is answered 500, and
/// leaves the session as it was: the requests that follow are handled as
/// if the malformed one had never come.
pub proof fn lemma_malformed_description_is_turned_down(
    s: SessionState,
    body: Option<Seq<u8>>,
)
    requires
        match body_text(body) {
            Some(text) => description_in(text) is None,
            None => true,
        },
    ensures
        on_request(s, "POST"@, "/sdp"@, body) == Some(rejected(s, SignalError::Decode)),
        reply_to(Err(SignalError::Decode)).status == 500,
{
    reveal_strlit("/sdp");
    reveal_strlit("/candidate");
    assert("/sdp"@.len() == 4 && "/candidate"@.len() == 10);
}

} // verus!
