use vote_handler::config::{Config, Settings};
use vote_handler::intake::{process_vote_request, Admission, Reply};
use vote_handler::snowflake::{deserialize, Snowflake};
use vote_handler::vote_handler::{ForwardOutcome, VoteHandler};
use vote_handler::vote_request::TopVoteRequest;

fn config() -> Config {
    Config::resolve(Settings {
        vote_endpoint: Some("http://downstream.test/vote".to_owned()),
        vote_endpoint_auth_token: Some("downstream-secret".to_owned()),
        vote_resend_delay: None,
        vote_resend_bulk_count: None,
        vote_auth_token: Some("generic-secret".to_owned()),
        vote_auth_token_topgg: Some("topgg-secret".to_owned()),
        vote_auth_token_dbl: None,
        vote_auth_token_bfd: None,
        vote_auth_token_dboats: None,
        vote_auth_token_dlist: None,
    })
}

/// Reads a top.gg notification as the HTTP layer would.
fn read_topgg(body: &str) -> TopVoteRequest {
    let read: serde_json::Value = serde_json::from_str(body).expect("the body is JSON");
    TopVoteRequest {
        bot: deserialize(read["bot"].as_str().expect("a bot")).expect("an identifier"),
        user: deserialize(read["user"].as_str().expect("a user")).expect("an identifier"),
        vote_type: read["type"].as_str().expect("a type").to_owned(),
        is_weekend: read.get("isWeekend").and_then(|flag| flag.as_bool()),
        query: read.get("query").and_then(|query| query.as_str()).map(|query| query.to_owned()),
    }
}

#[test]
fn topgg_vote_reaches_the_endpoint_in_canonical_form() {
    let config = config();
    let mut handler = VoteHandler::new(&config);
    let inbound = read_topgg("{\"bot\":\"1\",\"user\":\"2\",\"type\":\"upvote\",\"isWeekend\":true}");

    let task = match process_vote_request(&config, "topgg-secret".to_owned(), inbound, false) {
        Admission::Accepted(task) => task,
        Admission::Unauthorized => panic!("the secret was right"),
    };
    assert!(task.is_well_formed());
    assert_eq!(Reply::after_enqueue(true).status(), 200);

    assert!(handler.is_idle());
    assert!(handler.process_task(task));
    let vote = handler.in_flight().expect("the vote is in flight");
    assert_eq!(vote.bot, Snowflake(1));
    assert_eq!(vote.user, Snowflake(2));
    assert_eq!(vote.vote_type, "vote");
    assert!(vote.is_weekend);
    assert_eq!(vote.query, None);
    assert_eq!(vote.src, Some("topgg".to_owned()));

    let request = handler.forward_vote(vote).expect("the vote has a body");
    assert_eq!(request.url, "http://downstream.test/vote");
    assert_eq!(request.authorization, "downstream-secret");
    let forwarded: serde_json::Value = serde_json::from_str(&request.body).expect("JSON");
    assert_eq!(forwarded["bot"].as_str(), Some("1"));
    assert_eq!(forwarded["user"].as_str(), Some("2"));
    assert_eq!(forwarded["type"].as_str(), Some("vote"));
    assert_eq!(forwarded["isWeekend"].as_bool(), Some(true));
    assert!(forwarded["query"].is_null());
    assert_eq!(forwarded["src"].as_str(), Some("topgg"));

    let answer = ForwardOutcome::Answered("{\"status\":\"OK\"}".to_owned());
    let delivered = VoteHandler::forward_succeeded(&answer);
    assert!(delivered);
    assert!(!handler.forward_completed(delivered));
    assert!(handler.is_idle());
    assert_eq!(handler.cached(), 0);
}

#[test]
fn topgg_vote_with_a_wrong_secret_goes_nowhere() {
    let config = config();
    let inbound = read_topgg("{\"bot\":\"1\",\"user\":\"2\",\"type\":\"upvote\",\"isWeekend\":true}");
    match process_vote_request(&config, "generic-secret".to_owned(), inbound, false) {
        Admission::Accepted(_) => panic!("the secret was wrong"),
        Admission::Unauthorized => assert_eq!(Reply::Unauthorized.status(), 401),
    }
}

#[test]
fn vote_that_the_endpoint_refuses_is_retried_later() {
    let config = config();
    let mut handler = VoteHandler::new(&config);
    let inbound = read_topgg("{\"bot\":\"1\",\"user\":\"2\",\"type\":\"upvote\"}");
    let task = match process_vote_request(&config, "topgg-secret".to_owned(), inbound, false) {
        Admission::Accepted(task) => task,
        Admission::Unauthorized => panic!("the secret was right"),
    };
    assert!(handler.process_task(task));
    let refused = ForwardOutcome::Answered("{\"status\":\"BUSY\"}".to_owned());
    assert!(!handler.forward_completed(VoteHandler::forward_succeeded(&refused)));
    assert_eq!(handler.cached(), 1);

    assert!(handler.resend_votes());
    let body = {
        let vote = handler.in_flight().expect("the vote is in flight again");
        assert!(!vote.is_weekend);
        handler.forward_vote(vote).expect("the vote has a body").body
    };
    assert_eq!(
        body,
        "{\"bot\":\"1\",\"user\":\"2\",\"type\":\"vote\",\"isWeekend\":false,\"query\":null,\"src\":\"topgg\"}"
    );
    assert!(!handler.forward_completed(VoteHandler::forward_succeeded(
        &ForwardOutcome::TransportFailed
    )));
    assert_eq!(handler.cached(), 1);
    assert!(handler.resend_votes());
    let accepted = ForwardOutcome::Answered("{\"status\":\"OK\"}".to_owned());
    assert!(!handler.forward_completed(VoteHandler::forward_succeeded(&accepted)));
    assert_eq!(handler.cached(), 0);
    assert_eq!(handler.resent(), 1);
}
