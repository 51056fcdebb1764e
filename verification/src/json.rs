//! JSON on the wire: the body that carries a vote downstream, and the
//! member of the endpoint's answer that tells how it went.
//!
//! The frame of the body is written here. What JSON itself demands, the
//! quoting of a text and the reading of a document, is left to `serde_json`.

use crate::decimal::{decimal_text, format_decimal};
use crate::text::{option_text, text_eq};
use crate::vote_request::{CanonicalVote, VoteRequest};
use vstd::prelude::*;
use vstd::string::StringExecFns;

verus! {

/// What `serde_json::to_string` makes of a text: the JSON string literal that
/// writes it, or nothing where it gives an error.
pub uninterp spec fn json_string_literal(text: Seq<char>) -> Option<Seq<char>>;

/// What `serde_json` reads under a key: the text of the member `key` of the
/// JSON object that `document` writes. Nothing where `document` is no JSON
/// document, writes no object, or the object has no such member or one that
/// is no string.
pub uninterp spec fn json_member_text(document: Seq<char>, key: Seq<char>) -> Option<Seq<char>>;

/// Calls `serde_json::to_string` on a string slice. The contract names the
/// result and claims nothing more: the same text always gives the same
/// literal, or always none.
#[verifier::external_body]
fn quote(text: &str) -> (literal: Option<String>)
    ensures
        option_text(literal) == json_string_literal(text@),
{
    match serde_json::to_string(text) {
        Ok(literal) => Some(literal),
        Err(_) => None,
    }
}

/// Calls `serde_json::from_str` for a `serde_json::Value`, then
/// `serde_json::Value::get` with the key, and hands out the text where the
/// member is a `Value::String`. The contract names the result and claims
/// nothing more: the same document and key always give the same answer.
#[verifier::external_body]
fn member_text(document: &str, key: &str) -> (member: Option<String>)
    ensures
        option_text(member) == json_member_text(document@, key@),
{
    let parsed: Result<serde_json::Value, serde_json::Error> = serde_json::from_str(document);
    match parsed {
        Ok(value) => match value.get(key) {
            Some(serde_json::Value::String(text)) => Some(text.clone()),
            _ => None,
        },
        Err(_) => None,
    }
}

/// How JSON writes a truth value.
pub open spec fn json_bool(flag: bool) -> Seq<char> {
    if flag {
        "true"@
    } else {
        "false"@
    }
}

/// How JSON writes a text that may be absent: `null` for the absent one.
pub open spec fn json_optional_literal(text: Option<Seq<char>>) -> Option<Seq<char>> {
    match text {
        Some(t) => json_string_literal(t),
        None => Some("null"@),
    }
}

/// The body for a vote, given the literals of its three texts: one object
/// with the members `bot`, `user`, `type`, `isWeekend`, `query` and `src`, in
/// this order and without blanks. The identifiers are written as strings of
/// decimal digits.
pub open spec fn vote_json_frame(
    vote: CanonicalVote,
    vote_type: Seq<char>,
    query: Seq<char>,
    source: Seq<char>,
) -> Seq<char> {
    "{\"bot\":\""@ + decimal_text(vote.bot_id as nat) + "\",\"user\":\""@ + decimal_text(
        vote.user_id as nat,
    ) + "\",\"type\":"@ + vote_type + ",\"isWeekend\":"@ + json_bool(vote.is_weekend)
        + ",\"query\":"@ + query + ",\"src\":"@ + source + "}"@
}

/// The body for a vote, or nothing where one of its texts has no literal.
pub open spec fn vote_json(vote: CanonicalVote) -> Option<Seq<char>> {
    match (
        json_string_literal(vote.vote_type),
        json_optional_literal(vote.query),
        json_optional_literal(vote.source),
    ) {
        (Some(vote_type), Some(query), Some(source)) => Some(
            vote_json_frame(vote, vote_type, query, source),
        ),
        _ => None,
    }
}

/// Whether a status, as read from an answer, reports success: only `OK` does.
pub open spec fn status_is_ok(status: Option<Seq<char>>) -> bool {
    status == Some("OK"@)
}

fn quote_optional(text: &Option<String>) -> (literal: Option<String>)
    ensures
        option_text(literal) == json_optional_literal(option_text(*text)),
{
    match text {
        Some(t) => quote(t.as_str()),
        None => Some(String::from_str("null")),
    }
}

/// Writes the body for a vote around the literals of its three texts.
pub fn frame_vote(vote: &VoteRequest, vote_type: &str, query: &str, source: &str) -> (body: String)
    ensures
        body@ == vote_json_frame(vote@, vote_type@, query@, source@),
{
    let mut body = String::from_str("{\"bot\":\"");
    body.append(format_decimal(vote.bot.0).as_str());
    body.append("\",\"user\":\"");
    body.append(format_decimal(vote.user.0).as_str());
    body.append("\",\"type\":");
    body.append(vote_type);
    body.append(",\"isWeekend\":");
    body.append(
        if vote.is_weekend {
            "true"
        } else {
            "false"
        },
    );
    body.append(",\"query\":");
    body.append(query);
    body.append(",\"src\":");
    body.append(source);
    body.append("}");
    body
}

/// Writes the body that carries a vote downstream.
pub fn encode_vote(vote: &VoteRequest) -> (body: Option<String>)
    ensures
        option_text(body) == vote_json(vote@),
{
    let vote_type = quote(vote.vote_type.as_str());
    let query = quote_optional(&vote.query);
    let source = quote_optional(&vote.src);
    match (vote_type, query, source) {
        (Some(vote_type), Some(query), Some(source)) => Some(
            frame_vote(vote, vote_type.as_str(), query.as_str(), source.as_str()),
        ),
        _ => None,
    }
}

/// Judges a status that was read from an answer.
pub fn status_accepts(status: &Option<String>) -> (accepted: bool)
    ensures
        accepted == status_is_ok(option_text(*status)),
{
    match status {
        Some(text) => text_eq(text.as_str(), "OK"),
        None => false,
    }
}

/// Judges the answer of the endpoint: it reports success exactly if it is a
/// JSON object whose member `status` is the string `OK`.
pub fn response_accepts(body: &str) -> (accepted: bool)
    ensures
        accepted == status_is_ok(json_member_text(body@, "status"@)),
{
    let status = member_text(body, "status");
    status_accepts(&status)
}

} // verus!
