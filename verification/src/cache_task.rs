//! Tasks for the processing actor.

use crate::constants::{CACHE_TASK_OP_RESEND, CACHE_TASK_OP_VOTE};
use crate::vote_request::VoteRequest;
use vstd::prelude::*;

verus! {

/// One piece of work for the processing actor: a vote to deliver, or the
/// start of a resend cycle. `op` tells which.
#[derive(Debug)]
pub struct CacheTask {
    pub op: u8,
    pub auth: Option<String>,
    pub vote: Option<VoteRequest>,
    pub msg: Option<String>,
}

impl CacheTask {
    /// A task of a known kind carries what its kind needs: a task to deliver
    /// carries the credential and the vote, a task to resend carries nothing.
    pub open spec fn well_formed(&self) -> bool {
        ||| self.op == CACHE_TASK_OP_VOTE && self.auth is Some && self.vote is Some
        ||| self.op == CACHE_TASK_OP_RESEND && self.auth is None && self.vote is None
    }

    /// The task to deliver `vote`, which came in with the credential `auth`.
    pub fn create_vote_task(auth: String, vote: VoteRequest) -> (task: CacheTask)
        ensures
            task.op == CACHE_TASK_OP_VOTE,
            task.auth == Some(auth),
            task.vote == Some(vote),
            task.msg is None,
            task.well_formed(),
    {
        CacheTask { op: CACHE_TASK_OP_VOTE, auth: Some(auth), vote: Some(vote), msg: None }
    }

    /// The task to run one resend cycle.
    pub fn create_resend_task() -> (task: CacheTask)
        ensures
            task.op == CACHE_TASK_OP_RESEND,
            task.auth is None,
            task.vote is None,
            task.msg is None,
            task.well_formed(),
    {
        CacheTask { op: CACHE_TASK_OP_RESEND, auth: None, vote: None, msg: None }
    }

    /// Whether the task is well formed.
    pub fn is_well_formed(&self) -> (well_formed: bool)
        ensures
            well_formed == self.well_formed(),
    {
        if self.op == CACHE_TASK_OP_VOTE {
            self.auth.is_some() && self.vote.is_some()
        } else if self.op == CACHE_TASK_OP_RESEND {
            self.auth.is_none() && self.vote.is_none()
        } else {
            false
        }
    }
}

} // verus!
