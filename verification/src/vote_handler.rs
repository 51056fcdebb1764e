//! The processing actor: the single owner of the retry cache.
//!
//! The actor handles one task at a time and has at most one vote in flight.
//! It does not talk to the endpoint itself. It says which vote is to be
//! forwarded and how the request looks, is told how the attempt went, and
//! decides what follows:
//!
//! * A vote that comes in is forwarded once; if that fails, it joins the
//!   retry cache at the tail.
//! * A resend cycle forwards the votes of the cache from the head, one after
//!   the other, up to the bulk count. The first failure puts the vote back at
//!   the head and ends the cycle, so that an endpoint that is down is asked
//!   once per cycle and not once per waiting vote.

use crate::cache_task::CacheTask;
use crate::config::Config;
use crate::constants::{CACHE_TASK_OP_RESEND, CACHE_TASK_OP_VOTE};
use crate::json::{encode_vote, json_member_text, response_accepts, status_is_ok, vote_json};
use crate::vote_cache::{appended, polled, returned, VoteCache};
use crate::vote_request::{CanonicalVote, VoteRequest};
use vstd::prelude::*;

verus! {

/// What the actor is doing.
#[derive(Clone, Copy, Debug, PartialEq, Eq, Structural)]
pub enum Phase {
    /// Nothing is in flight; the next task may begin.
    Idle,
    /// A vote that just came in is in flight.
    Forwarding,
    /// A vote of the retry cache is in flight, within a resend cycle.
    Draining,
}

/// The vote in flight, as a mathematical value.
pub enum Flight {
    Idle,
    /// The vote that just came in.
    Forwarding(CanonicalVote),
    /// The vote taken from the cache, and how many votes the cycle has
    /// delivered before it.
    Draining(CanonicalVote, nat),
}

/// The actor as a mathematical value.
pub struct HandlerState {
    /// The retry cache, the head first.
    pub cache: Seq<CanonicalVote>,
    pub flight: Flight,
    /// How many votes the resend cycle that ended last has delivered.
    pub resent: nat,
    /// Most votes that one resend cycle delivers.
    pub bulk_count: nat,
    /// Where votes are forwarded to.
    pub endpoint: Seq<char>,
    /// The secret that is shown to the endpoint.
    pub auth_token: Seq<char>,
}

/// The request that forwards a vote: a POST to `url` with `authorization` in
/// the header of that name and `body` as the body.
#[derive(Debug)]
pub struct OutboundRequest {
    pub url: String,
    pub authorization: String,
    pub body: String,
}

/// How an attempt to forward a vote went.
#[derive(Debug)]
pub enum ForwardOutcome {
    /// The request did not get through, or no response came.
    TransportFailed,
    /// A response came, but its body could not be read.
    BodyUnreadable,
    /// The endpoint answered with this body.
    Answered(String),
}

impl Flight {
    pub open spec fn phase(self) -> Phase {
        match self {
            Flight::Idle => Phase::Idle,
            Flight::Forwarding(_) => Phase::Forwarding,
            Flight::Draining(_, _) => Phase::Draining,
        }
    }

    pub open spec fn vote(self) -> Option<CanonicalVote> {
        match self {
            Flight::Idle => None,
            Flight::Forwarding(vote) => Some(vote),
            Flight::Draining(vote, _) => Some(vote),
        }
    }
}

impl HandlerState {
    /// A cycle that is under way has not yet delivered its bulk count.
    pub open spec fn well_formed(self) -> bool {
        self.flight matches Flight::Draining(_, delivered) ==> delivered < self.bulk_count
    }

    /// The votes that the actor holds, in the order in which they are due:
    /// a vote of the cache that is in flight is due before the cache, a vote
    /// that just came in is due behind it.
    pub open spec fn held(self) -> Seq<CanonicalVote> {
        match self.flight {
            Flight::Idle => self.cache,
            Flight::Forwarding(vote) => appended(self.cache, vote),
            Flight::Draining(vote, _) => returned(self.cache, vote),
        }
    }

    /// The actor after a vote has come in: the vote is in flight.
    pub open spec fn accept(self, vote: CanonicalVote) -> HandlerState {
        HandlerState { flight: Flight::Forwarding(vote), ..self }
    }

    /// The actor after a resend cycle has begun: the head of the cache is in
    /// flight. Where the cache is empty or the bulk count is 0, the cycle is
    /// over at once.
    pub open spec fn start_cycle(self) -> HandlerState {
        if self.bulk_count > 0 && self.cache.len() > 0 {
            HandlerState {
                flight: Flight::Draining(self.cache[0], 0),
                cache: polled(self.cache),
                ..self
            }
        } else {
            HandlerState { resent: 0, ..self }
        }
    }

    /// The actor after it has learnt how the attempt for the vote in flight
    /// went.
    pub open spec fn complete(self, delivered: bool) -> HandlerState {
        match self.flight {
            Flight::Idle => self,
            Flight::Forwarding(vote) => HandlerState {
                flight: Flight::Idle,
                cache: if delivered {
                    self.cache
                } else {
                    appended(self.cache, vote)
                },
                ..self
            },
            Flight::Draining(vote, before) => if !delivered {
                HandlerState {
                    flight: Flight::Idle,
                    cache: returned(self.cache, vote),
                    resent: before,
                    ..self
                }
            } else if before + 1 < self.bulk_count && self.cache.len() > 0 {
                HandlerState {
                    flight: Flight::Draining(self.cache[0], before + 1),
                    cache: polled(self.cache),
                    ..self
                }
            } else {
                HandlerState { flight: Flight::Idle, resent: before + 1, ..self }
            },
        }
    }

    /// The actor after a task has begun. A task of an unknown kind, or one
    /// that is to deliver a vote and carries none, changes nothing.
    pub open spec fn process(self, op: u8, vote: Option<CanonicalVote>) -> HandlerState {
        if op == CACHE_TASK_OP_VOTE {
            match vote {
                Some(vote) => self.accept(vote),
                None => self,
            }
        } else if op == CACHE_TASK_OP_RESEND {
            self.start_cycle()
        } else {
            self
        }
    }

    /// The actor after the attempts of a cycle that is under way have gone as
    /// `outcomes` tells, one after the other, and the number of attempts made. The
    /// outcomes that the cycle does not get to are left unread.
    pub open spec fn drain(self, outcomes: Seq<bool>) -> (HandlerState, nat)
        decreases outcomes.len(),
    {
        if self.flight is Draining && outcomes.len() > 0 {
            let (end, attempts) = self.complete(outcomes[0]).drain(outcomes.skip(1));
            (end, attempts + 1)
        } else {
            (self, 0)
        }
    }

    /// The actor after one whole resend cycle, and the number of attempts
    /// that the cycle made.
    pub open spec fn resend_cycle(self, outcomes: Seq<bool>) -> (HandlerState, nat) {
        self.start_cycle().drain(outcomes)
    }
}

/// Whether an attempt that went this way has delivered the vote: only an
/// answer that is a JSON object with the member `status` of `OK` says so.
pub open spec fn outcome_delivers(outcome: ForwardOutcome) -> bool {
    match outcome {
        ForwardOutcome::TransportFailed => false,
        ForwardOutcome::BodyUnreadable => false,
        ForwardOutcome::Answered(body) => status_is_ok(json_member_text(body@, "status"@)),
    }
}

/// Whatever happens, the actor stays well formed.
pub proof fn lemma_stays_well_formed(state: HandlerState, vote: CanonicalVote, delivered: bool)
    requires
        state.well_formed(),
    ensures
        state.accept(vote).well_formed(),
        state.start_cycle().well_formed(),
        state.complete(delivered).well_formed(),
{
}

/// The actor moves from idle to forwarding and back, or from idle to
/// draining and back, and never from the one to the other: a task ends
/// before the next begins, however its attempts went.
pub proof fn lemma_phases(state: HandlerState, vote: CanonicalVote, delivered: bool)
    ensures
        state.accept(vote).flight == Flight::Forwarding(vote),
        state.flight is Idle ==> !(state.start_cycle().flight is Forwarding),
        state.flight is Idle ==> state.complete(delivered) == state,
        state.flight is Forwarding ==> state.complete(delivered).flight is Idle,
        state.flight is Draining ==> !(state.complete(delivered).flight is Forwarding),
        state.flight is Draining && !delivered ==> state.complete(delivered).flight is Idle,
{
}

/// No vote is lost and none is held twice: a vote that comes in is held
/// behind all others, a vote leaves only when it has been delivered, and
/// whatever else happens the votes held stay the same, in the same order.
pub proof fn lemma_votes_held(state: HandlerState, vote: CanonicalVote)
    ensures
        state.flight is Idle ==> state.accept(vote).held() == state.held().push(vote),
        state.flight is Idle ==> state.start_cycle().held() == state.held(),
        state.complete(false).held() == state.held(),
        state.flight is Idle ==> state.complete(true).held() == state.held(),
        state.flight is Forwarding ==> state.complete(true).held() == state.held().drop_last(),
        state.flight is Draining ==> state.complete(true).held() == state.held().skip(1),
{
    if state.cache.len() > 0 {
        assert(seq![state.cache[0]] + state.cache.skip(1) =~= state.cache);
    }
    match state.flight {
        Flight::Idle => {},
        Flight::Forwarding(sent) => {
            assert(state.cache.push(sent).drop_last() =~= state.cache);
        },
        Flight::Draining(sent, _) => {
            assert((seq![sent] + state.cache).skip(1) =~= state.cache);
        },
    }
}

/// Fail fast: where the first attempt of a cycle fails, the cycle ends after
/// that one attempt, and the cache is what it was before the cycle, the vote
/// that failed at its head again.
pub proof fn lemma_resend_fail_fast(state: HandlerState, outcomes: Seq<bool>)
    requires
        state.flight is Idle,
        state.cache.len() > 0,
        state.bulk_count > 0,
        outcomes.len() > 0,
        !outcomes[0],
    ensures
        state.resend_cycle(outcomes) == (HandlerState { resent: 0, ..state }, 1nat),
{
    let started = state.start_cycle();
    let failed = started.complete(false);
    assert(seq![state.cache[0]] + state.cache.skip(1) =~= state.cache);
    assert(failed == HandlerState { resent: 0, ..state });
    assert(failed.drain(outcomes.skip(1)) == (failed, 0nat));
}

/// How many attempts a cycle still makes if all of them succeed: one for
/// the vote in flight and one for each vote that waits, as far as the bulk
/// count allows.
spec fn attempts_ahead(state: HandlerState) -> int {
    let allowed: int = state.bulk_count - state.flight->Draining_1;
    let waiting: int = state.cache.len() as int;
    if allowed <= waiting {
        allowed
    } else {
        waiting + 1
    }
}

/// The rest of a cycle in which every attempt succeeds.
proof fn lemma_drain_all_delivered(state: HandlerState, outcomes: Seq<bool>)
    requires
        state.well_formed(),
        state.flight is Draining,
        forall|i: int| 0 <= i < outcomes.len() ==> outcomes[i],
        outcomes.len() >= state.cache.len() + 1 || outcomes.len() >= state.bulk_count
            - state.flight->Draining_1,
    ensures
        state.drain(outcomes) == (
            HandlerState {
                flight: Flight::Idle,
                cache: state.cache.skip(attempts_ahead(state) - 1),
                resent: (state.flight->Draining_1 + attempts_ahead(state)) as nat,
                ..state
            },
            attempts_ahead(state) as nat,
        ),
    decreases outcomes.len(),
{
    let before = state.flight->Draining_1;
    let next = state.complete(true);
    assert(outcomes[0]);
    if before + 1 < state.bulk_count && state.cache.len() > 0 {
        let rest = outcomes.skip(1);
        assert forall|i: int| 0 <= i < rest.len() implies rest[i] by {
            assert(rest[i] == outcomes[i + 1]);
        }
        lemma_drain_all_delivered(next, rest);
        let more = attempts_ahead(next);
        assert(state.cache.skip(1).skip(more - 1) =~= state.cache.skip(more));
    } else {
        assert(state.cache.skip(0) =~= state.cache);
        assert(next.drain(outcomes.skip(1)) == (next, 0nat));
    }
}

/// The bulk cap: where every attempt succeeds, a cycle delivers as many
/// votes as the bulk count allows, or all that wait if these are fewer, and
/// makes no attempt beyond. The other votes stay in the cache, in their order.
pub proof fn lemma_resend_bulk_cap(state: HandlerState, outcomes: Seq<bool>)
    requires
        state.flight is Idle,
        forall|i: int| 0 <= i < outcomes.len() ==> outcomes[i],
        outcomes.len() >= state.cache.len() || outcomes.len() >= state.bulk_count,
    ensures
        ({
            let delivered = if state.bulk_count <= state.cache.len() {
                state.bulk_count
            } else {
                state.cache.len()
            };
            state.resend_cycle(outcomes) == (
                HandlerState {
                    cache: state.cache.skip(delivered as int),
                    resent: delivered,
                    ..state
                },
                delivered,
            )
        }),
{
    if state.bulk_count > 0 && state.cache.len() > 0 {
        let started = state.start_cycle();
        lemma_drain_all_delivered(started, outcomes);
        let more = attempts_ahead(started);
        assert(state.cache.skip(1).skip(more - 1) =~= state.cache.skip(more));
    } else {
        assert(state.cache.skip(0) =~= state.cache);
    }
}

enum InFlight {
    Idle,
    Forwarding(VoteRequest),
    Draining(VoteRequest, u32),
}

impl View for InFlight {
    type V = Flight;

    closed spec fn view(&self) -> Flight {
        match self {
            InFlight::Idle => Flight::Idle,
            InFlight::Forwarding(vote) => Flight::Forwarding(vote@),
            InFlight::Draining(vote, before) => Flight::Draining(vote@, *before as nat),
        }
    }
}

/// The vote in flight together with the bulk count that bounds a cycle.
struct Progress {
    flight: InFlight,
    bulk_count: u32,
}

impl Progress {
    /// A cycle that is under way has not yet delivered its bulk count.
    #[verifier::type_invariant]
    spec fn within_bulk_count(&self) -> bool {
        self.flight matches InFlight::Draining(_, before) ==> before < self.bulk_count
    }

    fn new(bulk_count: u32) -> (progress: Progress)
        ensures
            progress.flight is Idle,
            progress.bulk_count == bulk_count,
    {
        Progress { flight: InFlight::Idle, bulk_count }
    }

    fn put(&mut self, flight: InFlight)
        requires
            flight matches InFlight::Draining(_, before) ==> before < old(self).bulk_count,
        ensures
            final(self).flight == flight,
            final(self).bulk_count == old(self).bulk_count,
    {
        self.flight = flight;
    }

    fn take(&mut self) -> (flight: InFlight)
        ensures
            flight == old(self).flight,
            flight matches InFlight::Draining(_, before) ==> before < old(self).bulk_count,
            final(self).flight is Idle,
            final(self).bulk_count == old(self).bulk_count,
    {
        proof {
            use_type_invariant(&*self);
        }
        let mut flight = InFlight::Idle;
        core::mem::swap(&mut self.flight, &mut flight);
        flight
    }
}

/// The processing actor.
pub struct VoteHandler {
    cache: VoteCache,
    progress: Progress,
    resent: u32,
    endpoint: String,
    auth_token: String,
}

impl View for VoteHandler {
    type V = HandlerState;

    closed spec fn view(&self) -> HandlerState {
        HandlerState {
            cache: self.cache@,
            flight: self.progress.flight@,
            resent: self.resent as nat,
            bulk_count: self.progress.bulk_count as nat,
            endpoint: self.endpoint@,
            auth_token: self.auth_token@,
        }
    }
}

impl VoteHandler {
    /// An actor with an empty cache and nothing in flight, which forwards to
    /// the endpoint of the configuration and keeps to its bulk count.
    pub fn new(config: &Config) -> (handler: VoteHandler)
        ensures
            handler@ == (HandlerState {
                cache: Seq::empty(),
                flight: Flight::Idle,
                resent: 0,
                bulk_count: config.vote_resend_bulk_count as nat,
                endpoint: config.vote_endpoint@,
                auth_token: config.vote_endpoint_auth_token@,
            }),
    {
        VoteHandler {
            cache: VoteCache::new(),
            progress: Progress::new(config.vote_resend_bulk_count),
            resent: 0,
            endpoint: config.vote_endpoint.clone(),
            auth_token: config.vote_endpoint_auth_token.clone(),
        }
    }

    /// What the actor is doing.
    pub fn phase(&self) -> (phase: Phase)
        ensures
            phase == self@.flight.phase(),
    {
        match &self.progress.flight {
            InFlight::Idle => Phase::Idle,
            InFlight::Forwarding(_) => Phase::Forwarding,
            InFlight::Draining(_, _) => Phase::Draining,
        }
    }

    /// Whether the next task may begin.
    pub fn is_idle(&self) -> (idle: bool)
        ensures
            idle == (self@.flight is Idle),
    {
        match &self.progress.flight {
            InFlight::Idle => true,
            _ => false,
        }
    }

    /// The vote in flight: the one to forward now.
    pub fn in_flight(&self) -> (vote: Option<&VoteRequest>)
        ensures
            match vote {
                Some(v) => self@.flight.vote() == Some(v@),
                None => self@.flight.vote() is None,
            },
    {
        match &self.progress.flight {
            InFlight::Idle => None,
            InFlight::Forwarding(vote) => Some(vote),
            InFlight::Draining(vote, _) => Some(vote),
        }
    }

    /// How many votes wait in the retry cache.
    pub fn cached(&self) -> (count: usize)
        ensures
            count == self@.cache.len(),
    {
        self.cache.size()
    }

    /// How many votes the resend cycle that ended last has delivered.
    pub fn resent(&self) -> (count: u32)
        ensures
            count == self@.resent,
    {
        self.resent
    }

    /// Takes in a vote: it is in flight now, to be forwarded once.
    pub fn accept_vote_request(&mut self, vote: VoteRequest)
        requires
            old(self)@.flight is Idle,
        ensures
            final(self)@ == old(self)@.accept(vote@),
    {
        self.progress.put(InFlight::Forwarding(vote));
    }

    /// Begins a resend cycle. Returns whether a vote is in flight now; if
    /// none is, the cycle is over already.
    pub fn resend_votes(&mut self) -> (pending: bool)
        requires
            old(self)@.flight is Idle,
        ensures
            final(self)@ == old(self)@.start_cycle(),
            pending == (final(self)@.flight is Draining),
    {
        if self.progress.bulk_count == 0 {
            self.resent = 0;
            return false;
        }
        match self.cache.poll() {
            Some(vote) => {
                self.progress.put(InFlight::Draining(vote, 0));
                true
            },
            None => {
                self.resent = 0;
                false
            },
        }
    }

    /// Begins a task. Returns whether a vote is in flight now.
    pub fn process_task(&mut self, task: CacheTask) -> (pending: bool)
        requires
            old(self)@.flight is Idle,
        ensures
            final(self)@ == old(self)@.process(
                task.op,
                match task.vote {
                    Some(vote) => Some(vote@),
                    None => None,
                },
            ),
            pending == !(final(self)@.flight is Idle),
    {
        if task.op == CACHE_TASK_OP_VOTE {
            match task.vote {
                Some(vote) => {
                    self.accept_vote_request(vote);
                    true
                },
                None => false,
            }
        } else if task.op == CACHE_TASK_OP_RESEND {
            self.resend_votes()
        } else {
            false
        }
    }

    /// Takes note of how the attempt for the vote in flight went, and decides
    /// what follows. Returns whether a vote is in flight now: the next of the
    /// cycle. With nothing in flight there is nothing to take note of.
    pub fn forward_completed(&mut self, delivered: bool) -> (pending: bool)
        ensures
            final(self)@ == old(self)@.complete(delivered),
            pending == (final(self)@.flight is Draining),
    {
        match self.progress.take() {
            InFlight::Idle => false,
            InFlight::Forwarding(vote) => {
                if !delivered {
                    self.cache.cache_failed_vote(vote);
                }
                false
            },
            InFlight::Draining(vote, before) => {
                if !delivered {
                    self.cache.return_failed_retry(vote);
                    self.resent = before;
                    return false;
                }
                let count: u32 = before + 1;
                if count < self.progress.bulk_count {
                    match self.cache.poll() {
                        Some(next) => {
                            self.progress.put(InFlight::Draining(next, count));
                            return true;
                        },
                        None => {},
                    }
                }
                self.resent = count;
                false
            },
        }
    }

    /// The request that forwards `vote` to the endpoint, or nothing where
    /// the vote has no body.
    pub fn forward_vote(&self, vote: &VoteRequest) -> (request: Option<OutboundRequest>)
        ensures
            match request {
                Some(r) => {
                    &&& r.url@ == self@.endpoint
                    &&& r.authorization@ == self@.auth_token
                    &&& vote_json(vote@) == Some(r.body@)
                },
                None => vote_json(vote@) is None,
            },
    {
        match encode_vote(vote) {
            Some(body) => Some(
                OutboundRequest {
                    url: self.endpoint.clone(),
                    authorization: self.auth_token.clone(),
                    body,
                },
            ),
            None => None,
        }
    }

    /// Judges how an attempt went: whether the vote has been delivered.
    pub fn forward_succeeded(outcome: &ForwardOutcome) -> (delivered: bool)
        ensures
            delivered == outcome_delivers(*outcome),
    {
        match outcome {
            ForwardOutcome::TransportFailed => false,
            ForwardOutcome::BodyUnreadable => false,
            ForwardOutcome::Answered(body) => response_accepts(body.as_str()),
        }
    }
}

} // verus!
