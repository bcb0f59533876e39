//! The buffer of ICE candidates that wait for a remote description.

use vstd::prelude::*;
use crate::session::{candidates_view, IceCandidate, IceCandidateView};

verus! {

/// Candidates in the order they arrived. The buffer is unbounded: a peer
/// that keeps sending candidates before its description makes it grow.
pub struct CandidateBuffer {
    items: Vec<IceCandidate>,
}

impl View for CandidateBuffer {
    type V = Seq<IceCandidateView>;

    closed spec fn view(&self) -> Seq<IceCandidateView> {
        candidates_view(self.items@)
    }
}

/// The buffer after the given candidates were pushed one after the other.
pub open spec fn pushed(buffer: Seq<IceCandidateView>, candidates: Seq<IceCandidateView>) -> Seq<
    IceCandidateView,
>
    decreases candidates.len(),
{
    if candidates.len() == 0 {
        buffer
    } else {
        pushed(buffer.push(candidates[0]), candidates.drop_first())
    }
}

/// What draining hands out, and what it leaves in the buffer.
pub open spec fn drained(buffer: Seq<IceCandidateView>) -> (
    Seq<IceCandidateView>,
    Seq<IceCandidateView>,
) {
    (buffer, Seq::empty())
}

impl CandidateBuffer {
    /// An empty buffer.
    pub fn new() -> (buffer: CandidateBuffer)
        ensures
            buffer@ == Seq::<IceCandidateView>::empty(),
    {
        let buffer = CandidateBuffer { items: Vec::new() };
        buffer
    }

    /// Number of candidates that wait.
    pub fn len(&self) -> (n: usize)
        ensures
            n == self@.len(),
    {
        self.items.len()
    }

    /// Whether no candidate waits.
    pub fn is_empty(&self) -> (empty: bool)
        ensures
            empty == (self@.len() == 0),
    {
        self.items.len() == 0
    }

    /// Puts a candidate behind those that already wait.
    pub fn add_pending_candidate(&mut self, candidate: IceCandidate)
        ensures
            final(self)@ == old(self)@.push(candidate@),
    {
        self.items.push(candidate);
    }

    /// A copy of the candidates that wait, in arrival order.
    pub fn get_pending_candidates(&self) -> (candidates: Vec<IceCandidate>)
        ensures
            candidates_view(candidates@) == self@,
    {
        let mut candidates: Vec<IceCandidate> = Vec::new();
        let mut i: usize = 0;
        while i < self.items.len()
            invariant
                i <= self.items.len(),
                candidates@ == self.items@.take(i as int),
            decreases self.items.len() - i,
        {
            candidates.push(self.items[i].clone());
            i += 1;
        }
        candidates
    }

    /// Replaces the candidates that wait by the given ones.
    pub fn set_pending_candidates(&mut self, candidates: Vec<IceCandidate>)
        ensures
            final(self)@ == candidates_view(candidates@),
    {
        self.items = candidates;
    }

    /// Hands out every candidate that waits, in arrival order, and leaves
    /// the buffer empty.
    pub fn drain_all(&mut self) -> (candidates: Vec<IceCandidate>)
        ensures
            (candidates_view(candidates@), final(self)@) == drained(old(self)@),
    {
        let mut candidates: Vec<IceCandidate> = Vec::new();
        std::mem::swap(&mut self.items, &mut candidates);
        candidates
    }
}

/// Pushing candidates puts them behind the buffer's content, in the order
/// of the pushes.
pub proof fn lemma_pushed_appends(buffer: Seq<IceCandidateView>, candidates: Seq<IceCandidateView>)
    ensures
        pushed(buffer, candidates) == buffer + candidates,
    decreases candidates.len(),
{
    if candidates.len() == 0 {
    } else {
        lemma_pushed_appends(buffer.push(candidates[0]), candidates.drop_first());
    }
}

/// Whatever candidates are pushed onto an empty buffer, draining hands out
/// exactly those, in the order they were pushed, and leaves the buffer
/// empty.
pub proof fn lemma_drain_returns_pushed_in_order(candidates: Seq<IceCandidateView>)
    ensures
        drained(pushed(Seq::empty(), candidates)) == (candidates, Seq::<IceCandidateView>::empty()),
{
    lemma_pushed_appends(Seq::empty(), candidates);
}

} // verus!
