//! The way in: which credential a source must show, and what becomes of a
//! request.
//!
//! A request is brought to canonical form and held against the secret that
//! its source shares with the relay. The generic endpoint knows one secret,
//! whatever source a vote names. A signed envelope shows no secret: it is
//! let in exactly if its signature verified.

use crate::cache_task::CacheTask;
use crate::config::Config;
use crate::constants::{
    CACHE_TASK_OP_VOTE, PAGE_KEY_BFD, PAGE_KEY_DBL, PAGE_KEY_DBOATS, PAGE_KEY_DLIST,
    PAGE_KEY_TOPGG,
};
use crate::text::{option_text, text_eq};
use crate::vote_request::{DiscordListVoteRequest, Vote, VoteRequest};
use vstd::prelude::*;

verus! {

/// What becomes of a request.
#[derive(Debug)]
pub enum Admission {
    /// The request may pass: the task is to be handed to the processing actor.
    Accepted(CacheTask),
    /// The request showed the wrong credential, or its signature did not verify.
    Unauthorized,
}

/// What the sender of a request is told.
#[derive(Clone, Copy, Debug, PartialEq, Eq, Structural)]
pub enum Reply {
    /// The vote is on its way to the processing actor.
    Accepted,
    /// The request was turned away.
    Unauthorized,
    /// The vote could not be handed to the processing actor, and is lost.
    Failed,
}

/// The secret that a vote of the given source must show, or nothing where
/// the source shows none. A source that is absent or unknown shares the
/// generic secret.
pub open spec fn expected_credential(
    config: &Config,
    source: Option<Seq<char>>,
) -> Option<Seq<char>> {
    match source {
        None => Some(config.vote_auth_token@),
        Some(tag) => if tag == PAGE_KEY_TOPGG@ {
            Some(config.vote_auth_token_topgg@)
        } else if tag == PAGE_KEY_DBL@ {
            Some(config.vote_auth_token_dbl@)
        } else if tag == PAGE_KEY_BFD@ {
            Some(config.vote_auth_token_bfd@)
        } else if tag == PAGE_KEY_DBOATS@ {
            Some(config.vote_auth_token_dboats@)
        } else if tag == PAGE_KEY_DLIST@ {
            None
        } else {
            Some(config.vote_auth_token@)
        },
    }
}

/// Whether a request may pass that names `source`, shows `presented`, and
/// came in through the generic endpoint (`generic`) or another one.
/// Credentials are compared as wholes.
pub open spec fn authorized(
    config: &Config,
    source: Option<Seq<char>>,
    presented: Seq<char>,
    generic: bool,
) -> bool {
    if generic {
        presented == config.vote_auth_token@
    } else {
        match expected_credential(config, source) {
            Some(expected) => presented == expected,
            None => true,
        }
    }
}

/// At every endpoint but the generic one, a source with a secret of its own
/// is let in by that secret and by nothing else.
pub proof fn lemma_source_secret(config: &Config, presented: Seq<char>)
    ensures
        authorized(config, Some(PAGE_KEY_TOPGG@), presented, false) <==> presented
            == config.vote_auth_token_topgg@,
        authorized(config, Some(PAGE_KEY_DBL@), presented, false) <==> presented
            == config.vote_auth_token_dbl@,
        authorized(config, Some(PAGE_KEY_BFD@), presented, false) <==> presented
            == config.vote_auth_token_bfd@,
        authorized(config, Some(PAGE_KEY_DBOATS@), presented, false) <==> presented
            == config.vote_auth_token_dboats@,
{
    reveal_strlit("topgg");
    reveal_strlit("dbl");
    reveal_strlit("bfd");
    reveal_strlit("dboats");
    assert(PAGE_KEY_DBL@ != PAGE_KEY_TOPGG@) by {
        assert(PAGE_KEY_DBL@.len() != PAGE_KEY_TOPGG@.len());
    }
    assert(PAGE_KEY_BFD@ != PAGE_KEY_TOPGG@) by {
        assert(PAGE_KEY_BFD@.len() != PAGE_KEY_TOPGG@.len());
    }
    assert(PAGE_KEY_BFD@ != PAGE_KEY_DBL@) by {
        assert(PAGE_KEY_BFD@[0] != PAGE_KEY_DBL@[0]);
    }
    assert(PAGE_KEY_DBOATS@ != PAGE_KEY_TOPGG@) by {
        assert(PAGE_KEY_DBOATS@.len() != PAGE_KEY_TOPGG@.len());
    }
    assert(PAGE_KEY_DBOATS@ != PAGE_KEY_DBL@) by {
        assert(PAGE_KEY_DBOATS@.len() != PAGE_KEY_DBL@.len());
    }
    assert(PAGE_KEY_DBOATS@ != PAGE_KEY_BFD@) by {
        assert(PAGE_KEY_DBOATS@.len() != PAGE_KEY_BFD@.len());
    }
}

/// The generic endpoint lets in by the generic secret and by nothing else,
/// whatever source the vote names.
pub proof fn lemma_generic_secret(config: &Config, source: Option<Seq<char>>, presented: Seq<char>)
    ensures
        authorized(config, source, presented, true) <==> presented == config.vote_auth_token@,
{
}

/// The secret that a request must show for the source that it names, or
/// nothing where the source shows none.
fn credential_for(config: &Config, source: &Option<String>) -> (expected: Option<String>)
    ensures
        option_text(expected) == expected_credential(config, option_text(*source)),
{
    match source {
        None => Some(config.vote_auth_token.clone()),
        Some(tag) => {
            let tag = tag.as_str();
            if text_eq(tag, PAGE_KEY_TOPGG) {
                Some(config.vote_auth_token_topgg.clone())
            } else if text_eq(tag, PAGE_KEY_DBL) {
                Some(config.vote_auth_token_dbl.clone())
            } else if text_eq(tag, PAGE_KEY_BFD) {
                Some(config.vote_auth_token_bfd.clone())
            } else if text_eq(tag, PAGE_KEY_DBOATS) {
                Some(config.vote_auth_token_dboats.clone())
            } else if text_eq(tag, PAGE_KEY_DLIST) {
                None
            } else {
                Some(config.vote_auth_token.clone())
            }
        },
    }
}

/// The secret that `vote` must show according to its source, or nothing
/// where its source shows none.
pub fn get_auth(config: &Config, vote: &VoteRequest) -> (expected: Option<String>)
    ensures
        option_text(expected) == expected_credential(config, option_text(vote.src)),
{
    credential_for(config, &vote.src)
}

/// Decides whether a request may pass that names `source` and shows
/// `presented`.
pub fn authorize(
    config: &Config,
    source: &Option<String>,
    presented: &str,
    generic: bool,
) -> (pass: bool)
    ensures
        pass == authorized(config, option_text(*source), presented@, generic),
{
    if generic {
        text_eq(presented, config.vote_auth_token.as_str())
    } else {
        match credential_for(config, source) {
            Some(expected) => text_eq(presented, expected.as_str()),
            None => true,
        }
    }
}

/// A notification in canonical form.
pub fn map_request<V: Vote>(vote: V) -> (canonical: VoteRequest)
    ensures
        canonical@ == vote.canonical(),
{
    vote.get_as_generic()
}

/// Handles a request that shows the credential `auth`: the notification is
/// brought to canonical form, and it is accepted, as a task that delivers the
/// canonical vote, exactly if the credential is the one that its source, or
/// the generic endpoint, asks for.
pub fn process_vote_request<V: Vote>(
    config: &Config,
    auth: String,
    vote: V,
    generic: bool,
) -> (admission: Admission)
    ensures
        match admission {
            Admission::Accepted(task) => {
                &&& authorized(config, vote.canonical().source, auth@, generic)
                &&& task.op == CACHE_TASK_OP_VOTE
                &&& task.auth == Some(auth)
                &&& task.vote matches Some(queued) && queued@ == vote.canonical()
                &&& task.msg is None
            },
            Admission::Unauthorized => !authorized(config, vote.canonical().source, auth@, generic),
        },
{
    let canonical = map_request(vote);
    if authorize(config, &canonical.src, auth.as_str(), generic) {
        Admission::Accepted(CacheTask::create_vote_task(auth, canonical))
    } else {
        Admission::Unauthorized
    }
}

/// Handles a signed envelope, given what its verification brought: the claims
/// where the signature verified, nothing where it did not. Only the signature
/// decides; the credential that the request shows with it is carried along
/// unread.
pub fn process_signed_vote_request(
    config: &Config,
    auth: String,
    verified: Option<DiscordListVoteRequest>,
) -> (admission: Admission)
    ensures
        match admission {
            Admission::Accepted(task) => {
                &&& verified matches Some(claims)
                &&& task.op == CACHE_TASK_OP_VOTE
                &&& task.auth == Some(auth)
                &&& task.vote matches Some(queued) && queued@ == claims.canonical()
                &&& task.msg is None
            },
            Admission::Unauthorized => verified is None,
        },
{
    match verified {
        Some(claims) => {
            proof {
                reveal_strlit("topgg");
                reveal_strlit("dbl");
                reveal_strlit("bfd");
                reveal_strlit("dboats");
                reveal_strlit("dlist");
                assert(PAGE_KEY_DLIST@.len() == 5);
                assert(PAGE_KEY_DLIST@[1] == 'l');
            }
            process_vote_request(config, auth, claims, false)
        },
        None => Admission::Unauthorized,
    }
}

impl Reply {
    /// The reply to a request that was accepted, once it is known whether
    /// its task could be handed to the processing actor.
    pub fn after_enqueue(enqueued: bool) -> (reply: Reply)
        ensures
            reply == if enqueued {
                Reply::Accepted
            } else {
                Reply::Failed
            },
    {
        if enqueued {
            Reply::Accepted
        } else {
            Reply::Failed
        }
    }

    /// The HTTP status of the reply.
    pub fn status(&self) -> (code: u16)
        ensures
            code == match *self {
                Reply::Accepted => 200u16,
                Reply::Unauthorized => 401u16,
                Reply::Failed => 404u16,
            },
    {
        match self {
            Reply::Accepted => 200,
            Reply::Unauthorized => 401,
            Reply::Failed => 404,
        }
    }

    /// The body of the reply: a status of `OK` where the vote was accepted,
    /// nothing otherwise.
    pub fn body(&self) -> (text: &'static str)
        ensures
            text@ == match *self {
                Reply::Accepted => "{\"status\":\"OK\"}"@,
                Reply::Unauthorized => ""@,
                Reply::Failed => ""@,
            },
    {
        match self {
            Reply::Accepted => "{\"status\":\"OK\"}",
            Reply::Unauthorized => "",
            Reply::Failed => "",
        }
    }
}

} // verus!
