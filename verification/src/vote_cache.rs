//! The retry cache: votes that wait for another attempt at delivery.
//!
//! Votes leave at the head. A vote that failed for the first time joins at
//! the tail; one that was taken out for a retry and failed again goes back to
//! the head, so that the order of delivery stays the order of arrival.

use crate::vote_request::{CanonicalVote, VoteRequest};
use std::collections::VecDeque;
use vstd::prelude::*;

verus! {

/// A queue of votes, unbounded and without any check for duplicates.
pub struct VoteCache {
    cache: VecDeque<VoteRequest>,
}

/// The queue after a vote has joined at the tail.
pub open spec fn appended(queue: Seq<CanonicalVote>, vote: CanonicalVote) -> Seq<CanonicalVote> {
    queue.push(vote)
}

/// The queue after a vote has gone back to the head.
pub open spec fn returned(queue: Seq<CanonicalVote>, vote: CanonicalVote) -> Seq<CanonicalVote> {
    seq![vote] + queue
}

/// The vote at the head of the queue, if there is one.
pub open spec fn head(queue: Seq<CanonicalVote>) -> Option<CanonicalVote> {
    if queue.len() > 0 {
        Some(queue[0])
    } else {
        None
    }
}

/// The queue after the vote at its head has left; an empty queue stays empty.
pub open spec fn polled(queue: Seq<CanonicalVote>) -> Seq<CanonicalVote> {
    if queue.len() > 0 {
        queue.skip(1)
    } else {
        queue
    }
}

/// The queue after all of `votes` have joined at the tail, one by one.
pub open spec fn appended_all(
    queue: Seq<CanonicalVote>,
    votes: Seq<CanonicalVote>,
) -> Seq<CanonicalVote>
    decreases votes.len(),
{
    if votes.len() == 0 {
        queue
    } else {
        appended(appended_all(queue, votes.drop_last()), votes.last())
    }
}

/// The queue after `count` polls.
pub open spec fn polled_times(queue: Seq<CanonicalVote>, count: nat) -> Seq<CanonicalVote>
    decreases count,
{
    if count == 0 {
        queue
    } else {
        polled(polled_times(queue, (count - 1) as nat))
    }
}

/// Appending votes one by one puts them behind the queue, in the order of
/// their arrival.
pub proof fn lemma_appended_all(queue: Seq<CanonicalVote>, votes: Seq<CanonicalVote>)
    ensures
        appended_all(queue, votes) == queue + votes,
    decreases votes.len(),
{
    if votes.len() == 0 {
        assert(queue + votes =~= queue);
    } else {
        lemma_appended_all(queue, votes.drop_last());
        assert(queue + votes =~= (queue + votes.drop_last()).push(votes.last()));
    }
}

/// Polling `count` times takes the first `count` votes away.
pub proof fn lemma_polled_times(queue: Seq<CanonicalVote>, count: nat)
    requires
        count <= queue.len(),
    ensures
        polled_times(queue, count) == queue.skip(count as int),
    decreases count,
{
    if count == 0 {
        assert(queue.skip(0) =~= queue);
    } else {
        lemma_polled_times(queue, (count - 1) as nat);
        assert(queue.skip(count - 1).skip(1) =~= queue.skip(count as int));
    }
}

/// First in, first out: of the votes appended to an empty queue, the poll
/// number `k` yields the vote number `k`.
pub proof fn lemma_fifo(votes: Seq<CanonicalVote>, k: nat)
    requires
        k < votes.len(),
    ensures
        head(polled_times(appended_all(Seq::empty(), votes), k)) == Some(votes[k as int]),
{
    lemma_appended_all(Seq::empty(), votes);
    assert(Seq::<CanonicalVote>::empty() + votes =~= votes);
    lemma_polled_times(votes, k);
}

/// A vote that was polled and then returned is the next to be polled, and
/// the queue behind it is what it was: polling and returning undo each other.
pub proof fn lemma_requeue(queue: Seq<CanonicalVote>)
    requires
        queue.len() > 0,
    ensures
        returned(polled(queue), head(queue).unwrap()) == queue,
        head(returned(polled(queue), head(queue).unwrap())) == head(queue),
        polled(returned(polled(queue), head(queue).unwrap())) == polled(queue),
{
    assert(seq![queue[0]] + queue.skip(1) =~= queue);
}

/// A returned vote is polled before any vote that was waiting.
pub proof fn lemma_returned_first(queue: Seq<CanonicalVote>, vote: CanonicalVote)
    ensures
        head(returned(queue, vote)) == Some(vote),
        polled(returned(queue, vote)) == queue,
{
    assert((seq![vote] + queue).skip(1) =~= queue);
}

impl View for VoteCache {
    type V = Seq<CanonicalVote>;

    /// The waiting votes, the head first.
    closed spec fn view(&self) -> Seq<CanonicalVote> {
        self.cache@.map_values(|vote: VoteRequest| vote@)
    }
}

impl Clone for VoteCache {
    fn clone(&self) -> (copy: VoteCache)
        ensures
            copy@ == self@,
    {
        let copy = VoteCache { cache: self.cache.clone() };
        assert(copy@ =~= self@);
        copy
    }
}

impl VoteCache {
    /// An empty cache.
    pub fn new() -> (cache: VoteCache)
        ensures
            cache@ == Seq::<CanonicalVote>::empty(),
    {
        let cache = VoteCache { cache: VecDeque::new() };
        assert(cache@ =~= Seq::<CanonicalVote>::empty());
        cache
    }

    /// Puts a vote whose delivery failed at the tail.
    pub fn cache_failed_vote(&mut self, vote: VoteRequest)
        ensures
            final(self)@ == appended(old(self)@, vote@),
    {
        self.cache.push_back(vote);
        assert(self@ =~= appended(old(self)@, vote@));
    }

    /// Puts a vote whose retry failed back at the head.
    pub fn return_failed_retry(&mut self, vote: VoteRequest)
        ensures
            final(self)@ == returned(old(self)@, vote@),
    {
        self.cache.push_front(vote);
        assert(self@ =~= returned(old(self)@, vote@));
    }

    /// Takes the vote at the head out, if there is one.
    pub fn poll(&mut self) -> (vote: Option<VoteRequest>)
        ensures
            final(self)@ == polled(old(self)@),
            match vote {
                Some(v) => head(old(self)@) == Some(v@),
                None => head(old(self)@) is None,
            },
    {
        let vote = self.cache.pop_front();
        assert(self@ =~= polled(old(self)@));
        vote
    }

    /// How many votes wait.
    pub fn size(&self) -> (count: usize)
        ensures
            count == self@.len(),
    {
        self.cache.len()
    }
}

} // verus!
