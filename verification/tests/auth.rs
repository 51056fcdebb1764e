use std::collections::BTreeMap;

use hmac::digest::KeyInit;
use hmac::Hmac;
use jwt::{SignWithKey, VerifyWithKey};
use sha2::Sha256;
use vote_handler::config::{Config, Settings};
use vote_handler::constants::CACHE_TASK_OP_VOTE;
use vote_handler::intake::{
    authorize, get_auth, process_signed_vote_request, process_vote_request, Admission, Reply,
};
use vote_handler::snowflake::{deserialize, Snowflake};
use vote_handler::vote_request::{
    BfdVoteRequest, DBoatsUserData, DBoatsVoteRequest, DblComVoteRequest, DiscordListVoteRequest,
    TopVoteRequest, VoteRequest,
};

fn config() -> Config {
    Config::resolve(Settings {
        vote_endpoint: None,
        vote_endpoint_auth_token: None,
        vote_resend_delay: None,
        vote_resend_bulk_count: None,
        vote_auth_token: Some("generic-secret".to_owned()),
        vote_auth_token_topgg: Some("topgg-secret".to_owned()),
        vote_auth_token_dbl: Some("dbl-secret".to_owned()),
        vote_auth_token_bfd: Some("bfd-secret".to_owned()),
        vote_auth_token_dboats: Some("dboats-secret".to_owned()),
        vote_auth_token_dlist: Some("dlist-key".to_owned()),
    })
}

fn tagged(src: Option<&str>) -> VoteRequest {
    VoteRequest {
        bot: Snowflake(1),
        user: Snowflake(2),
        vote_type: "vote".to_owned(),
        is_weekend: false,
        query: None,
        src: src.map(|tag| tag.to_owned()),
    }
}

fn accepted(admission: &Admission) -> bool {
    matches!(admission, Admission::Accepted(_))
}

fn sign(key: &str, bot: &str, user: &str, is_test: bool) -> String {
    let key: Hmac<Sha256> = Hmac::new_from_slice(key.as_bytes()).expect("any key will do");
    let mut claims: BTreeMap<String, serde_json::Value> = BTreeMap::new();
    claims.insert("bot_id".to_owned(), serde_json::Value::String(bot.to_owned()));
    claims.insert("user_id".to_owned(), serde_json::Value::String(user.to_owned()));
    claims.insert("query".to_owned(), serde_json::Value::Null);
    claims.insert("is_test".to_owned(), serde_json::Value::Bool(is_test));
    claims.sign_with_key(&key).expect("the claims can be signed")
}

fn verify(key: &str, envelope: &str) -> Option<DiscordListVoteRequest> {
    let key: Hmac<Sha256> = Hmac::new_from_slice(key.as_bytes()).expect("any key will do");
    let claims: BTreeMap<String, serde_json::Value> = envelope.verify_with_key(&key).ok()?;
    Some(DiscordListVoteRequest {
        bot_id: deserialize(claims.get("bot_id")?.as_str()?)?,
        user_id: deserialize(claims.get("user_id")?.as_str()?)?,
        query: claims.get("query")?.as_str().map(|query| query.to_owned()),
        is_test: claims.get("is_test")?.as_bool()?,
    })
}

#[test]
fn expected_credential_by_source() {
    let config = config();
    assert_eq!(get_auth(&config, &tagged(None)), Some("generic-secret".to_owned()));
    assert_eq!(get_auth(&config, &tagged(Some("topgg"))), Some("topgg-secret".to_owned()));
    assert_eq!(get_auth(&config, &tagged(Some("dbl"))), Some("dbl-secret".to_owned()));
    assert_eq!(get_auth(&config, &tagged(Some("bfd"))), Some("bfd-secret".to_owned()));
    assert_eq!(get_auth(&config, &tagged(Some("dboats"))), Some("dboats-secret".to_owned()));
    assert_eq!(get_auth(&config, &tagged(Some("dlist"))), None);
    assert_eq!(get_auth(&config, &tagged(Some("generic"))), Some("generic-secret".to_owned()));
    assert_eq!(get_auth(&config, &tagged(Some("elsewhere"))), Some("generic-secret".to_owned()));
    assert_eq!(get_auth(&config, &tagged(Some("TOPGG"))), Some("generic-secret".to_owned()));
    assert_eq!(get_auth(&config, &tagged(Some(""))), Some("generic-secret".to_owned()));
}

#[test]
fn source_secret_authorizes() {
    let config = config();
    for (tag, secret) in [
        ("topgg", "topgg-secret"),
        ("dbl", "dbl-secret"),
        ("bfd", "bfd-secret"),
        ("dboats", "dboats-secret"),
    ] {
        let vote = tagged(Some(tag));
        assert!(authorize(&config, &vote.src, secret, false));
        assert!(!authorize(&config, &vote.src, "generic-secret", false));
        assert!(!authorize(&config, &vote.src, "wrong", false));
        assert!(!authorize(&config, &vote.src, "", false));
    }
}

#[test]
fn credentials_are_compared_as_wholes() {
    let config = config();
    let vote = tagged(Some("topgg"));
    assert!(!authorize(&config, &vote.src, "topgg-secret-and-more", false));
    assert!(!authorize(&config, &vote.src, "topgg", false));
    assert!(!authorize(&config, &vote.src, "Topgg-secret", false));
    assert!(!authorize(&config, &vote.src, " topgg-secret", false));
}

#[test]
fn unknown_source_shares_the_generic_secret() {
    let config = config();
    assert!(authorize(&config, &tagged(Some("elsewhere")).src, "generic-secret", false));
    assert!(!authorize(&config, &tagged(Some("elsewhere")).src, "topgg-secret", false));
    assert!(authorize(&config, &None, "generic-secret", false));
    assert!(!authorize(&config, &None, "wrong", false));
}

#[test]
fn generic_endpoint_ignores_source_secrets() {
    let config = config();
    for tag in [None, Some("topgg"), Some("dbl"), Some("bfd"), Some("dboats"), Some("dlist")] {
        let vote = tagged(tag);
        assert!(authorize(&config, &vote.src, "generic-secret", true));
        assert!(!authorize(&config, &vote.src, "topgg-secret", true));
        assert!(!authorize(&config, &vote.src, "dbl-secret", true));
        assert!(!authorize(&config, &vote.src, "dlist-key", true));
        assert!(!authorize(&config, &vote.src, "", true));
    }
}

#[test]
fn signed_source_shows_no_credential() {
    let config = config();
    let vote = tagged(Some("dlist"));
    assert!(authorize(&config, &vote.src, "anything", false));
    assert!(authorize(&config, &vote.src, "", false));
}

#[test]
fn request_with_the_right_secret_becomes_a_task() {
    let config = config();
    let vote = BfdVoteRequest { bot: Snowflake(3), user: Snowflake(4), vote_type: "vote".to_owned() };
    match process_vote_request(&config, "bfd-secret".to_owned(), vote, false) {
        Admission::Accepted(task) => {
            assert_eq!(task.op, CACHE_TASK_OP_VOTE);
            assert_eq!(task.auth, Some("bfd-secret".to_owned()));
            assert!(task.msg.is_none());
            let queued = task.vote.expect("the task carries the vote");
            assert_eq!(queued.bot, Snowflake(3));
            assert_eq!(queued.user, Snowflake(4));
            assert_eq!(queued.src, Some("bfd".to_owned()));
        },
        Admission::Unauthorized => panic!("the secret was right"),
    }
}

#[test]
fn request_with_a_wrong_secret_is_turned_away() {
    let config = config();
    let top = TopVoteRequest {
        bot: Snowflake(1),
        user: Snowflake(2),
        vote_type: "upvote".to_owned(),
        is_weekend: None,
        query: None,
    };
    assert!(!accepted(&process_vote_request(&config, "bfd-secret".to_owned(), top, false)));
    let dbl = DblComVoteRequest { bot: None, id: Snowflake(2), username: "voter".to_owned() }
        .with_path_bot(1);
    assert!(!accepted(&process_vote_request(&config, "generic-secret".to_owned(), dbl, false)));
    let boats = DBoatsVoteRequest {
        bot: None,
        user: DBoatsUserData { id: Snowflake(2), username: "voter".to_owned(), discriminator: 1 },
    };
    assert!(accepted(&process_vote_request(&config, "dboats-secret".to_owned(), boats, false)));
}

#[test]
fn generic_request_is_held_against_the_generic_secret() {
    let config = config();
    assert!(accepted(&process_vote_request(
        &config,
        "generic-secret".to_owned(),
        tagged(Some("topgg")),
        true
    )));
    assert!(!accepted(&process_vote_request(
        &config,
        "topgg-secret".to_owned(),
        tagged(Some("topgg")),
        true
    )));
    match process_vote_request(&config, "generic-secret".to_owned(), tagged(None), true) {
        Admission::Accepted(task) => {
            assert_eq!(task.vote.expect("the task carries the vote").src, Some("generic".to_owned()));
        },
        Admission::Unauthorized => panic!("the secret was right"),
    }
}

#[test]
fn verified_envelope_is_accepted_whatever_the_header() {
    let config = config();
    let envelope = sign("dlist-key", "10", "20", true);
    for header in ["", "wrong", "generic-secret", "dlist-key"] {
        let verified = verify(&config.vote_auth_token_dlist, &envelope);
        assert!(verified.is_some());
        match process_signed_vote_request(&config, header.to_owned(), verified) {
            Admission::Accepted(task) => {
                let queued = task.vote.expect("the task carries the vote");
                assert_eq!(queued.bot, Snowflake(10));
                assert_eq!(queued.user, Snowflake(20));
                assert_eq!(queued.vote_type, "test");
                assert_eq!(queued.src, Some("dlist".to_owned()));
                assert_eq!(task.auth, Some(header.to_owned()));
            },
            Admission::Unauthorized => panic!("the signature verified"),
        }
    }
}

#[test]
fn tampered_envelope_is_rejected_whatever_the_header() {
    let config = config();
    let envelope = sign("dlist-key", "10", "20", false);
    let parts: Vec<&str> = envelope.split('.').collect();
    assert_eq!(parts.len(), 3);
    let forged = sign("another-key", "10", "99", false);
    let forged_parts: Vec<&str> = forged.split('.').collect();
    let tampered = format!("{}.{}.{}", parts[0], forged_parts[1], parts[2]);
    for candidate in [tampered, forged, "not an envelope".to_owned(), String::new()] {
        for header in ["", "generic-secret", "dlist-key"] {
            let verified = verify(&config.vote_auth_token_dlist, &candidate);
            assert!(verified.is_none());
            let admission = process_signed_vote_request(&config, header.to_owned(), verified);
            assert!(!accepted(&admission));
        }
    }
}

#[test]
fn replies() {
    assert_eq!(Reply::after_enqueue(true), Reply::Accepted);
    assert_eq!(Reply::after_enqueue(false), Reply::Failed);
    assert_eq!(Reply::Accepted.status(), 200);
    assert_eq!(Reply::Unauthorized.status(), 401);
    assert_eq!(Reply::Failed.status(), 404);
    assert_eq!(Reply::Accepted.body(), "{\"status\":\"OK\"}");
    assert_eq!(Reply::Unauthorized.body(), "");
    assert_eq!(Reply::Failed.body(), "");
}
