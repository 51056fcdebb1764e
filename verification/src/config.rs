//! The configuration of the relay.
//!
//! The settings arrive as texts, each of which may be absent. One chain of
//! fallbacks makes the configuration of them: a secret of a source falls
//! back to the generic secret, the generic secret to a fixed default; a
//! number that is absent or unreadable falls back to its default. Once made,
//! a configuration does not change.

use crate::constants::{
    DEFAULT_AUTH_TOKEN, DEFAULT_RESEND_BULK_COUNT, DEFAULT_RESEND_DELAY, DEFAULT_VOTE_ENDPOINT,
};
use crate::decimal::{decimal_value, parse_decimal};
use vstd::prelude::*;

verus! {

/// The settings as they were found. Each field bears, in lower case, the
/// name of the variable that holds the setting.
pub struct Settings {
    pub vote_endpoint: Option<String>,
    pub vote_endpoint_auth_token: Option<String>,
    pub vote_resend_delay: Option<String>,
    pub vote_resend_bulk_count: Option<String>,
    pub vote_auth_token: Option<String>,
    pub vote_auth_token_topgg: Option<String>,
    pub vote_auth_token_dbl: Option<String>,
    pub vote_auth_token_bfd: Option<String>,
    pub vote_auth_token_dboats: Option<String>,
    pub vote_auth_token_dlist: Option<String>,
}

/// What the relay works with.
#[derive(Debug)]
pub struct Config {
    /// Where votes are forwarded to.
    pub vote_endpoint: String,
    /// The secret that the relay shows to the endpoint.
    pub vote_endpoint_auth_token: String,
    /// Seconds between two resend cycles.
    pub vote_resend_delay: u64,
    /// Most votes that one resend cycle delivers.
    pub vote_resend_bulk_count: u32,
    /// The generic secret.
    pub vote_auth_token: String,
    pub vote_auth_token_topgg: String,
    pub vote_auth_token_dbl: String,
    pub vote_auth_token_bfd: String,
    pub vote_auth_token_dboats: String,
    /// The key under which the signed envelopes of discordlist.gg verify.
    pub vote_auth_token_dlist: String,
}

/// The text of a setting, or the fallback where the setting is absent.
pub open spec fn text_or(setting: Option<String>, fallback: Seq<char>) -> Seq<char> {
    match setting {
        Some(text) => text@,
        None => fallback,
    }
}

/// The number up to `max` that a setting writes in decimal notation, or the
/// fallback where the setting is absent or writes no such number.
pub open spec fn number_or(setting: Option<String>, max: nat, fallback: nat) -> nat {
    match setting {
        Some(text) => match decimal_value(text@, max) {
            Some(number) => number,
            None => fallback,
        },
        None => fallback,
    }
}

fn resolve_text(setting: Option<String>, fallback: &str) -> (text: String)
    ensures
        text@ == text_or(setting, fallback@),
{
    match setting {
        Some(text) => text,
        None => fallback.to_owned(),
    }
}

fn resolve_number(setting: &Option<String>, max: u64, fallback: u64) -> (number: u64)
    requires
        fallback <= max,
    ensures
        number == number_or(*setting, max as nat, fallback as nat),
        number <= max,
{
    match setting {
        Some(text) => match parse_decimal(text.as_str(), max) {
            Some(number) => number,
            None => fallback,
        },
        None => fallback,
    }
}

impl Config {
    /// The configuration that the settings describe.
    pub fn resolve(settings: Settings) -> (config: Config)
        ensures
            config.vote_endpoint@ == text_or(settings.vote_endpoint, DEFAULT_VOTE_ENDPOINT@),
            config.vote_auth_token@ == text_or(settings.vote_auth_token, DEFAULT_AUTH_TOKEN@),
            config.vote_endpoint_auth_token@ == text_or(
                settings.vote_endpoint_auth_token,
                config.vote_auth_token@,
            ),
            config.vote_auth_token_topgg@ == text_or(
                settings.vote_auth_token_topgg,
                config.vote_auth_token@,
            ),
            config.vote_auth_token_dbl@ == text_or(
                settings.vote_auth_token_dbl,
                config.vote_auth_token@,
            ),
            config.vote_auth_token_bfd@ == text_or(
                settings.vote_auth_token_bfd,
                config.vote_auth_token@,
            ),
            config.vote_auth_token_dboats@ == text_or(
                settings.vote_auth_token_dboats,
                config.vote_auth_token@,
            ),
            config.vote_auth_token_dlist@ == text_or(
                settings.vote_auth_token_dlist,
                config.vote_auth_token@,
            ),
            config.vote_resend_delay == number_or(
                settings.vote_resend_delay,
                u64::MAX as nat,
                DEFAULT_RESEND_DELAY as nat,
            ),
            config.vote_resend_bulk_count == number_or(
                settings.vote_resend_bulk_count,
                u32::MAX as nat,
                DEFAULT_RESEND_BULK_COUNT as nat,
            ),
    {
        let generic = resolve_text(settings.vote_auth_token, DEFAULT_AUTH_TOKEN);
        let bulk_count: u64 = resolve_number(
            &settings.vote_resend_bulk_count,
            u32::MAX as u64,
            DEFAULT_RESEND_BULK_COUNT as u64,
        );
        Config {
            vote_endpoint: resolve_text(settings.vote_endpoint, DEFAULT_VOTE_ENDPOINT),
            vote_endpoint_auth_token: resolve_text(
                settings.vote_endpoint_auth_token,
                generic.as_str(),
            ),
            vote_resend_delay: resolve_number(
                &settings.vote_resend_delay,
                u64::MAX,
                DEFAULT_RESEND_DELAY,
            ),
            vote_resend_bulk_count: bulk_count as u32,
            vote_auth_token_topgg: resolve_text(settings.vote_auth_token_topgg, generic.as_str()),
            vote_auth_token_dbl: resolve_text(settings.vote_auth_token_dbl, generic.as_str()),
            vote_auth_token_bfd: resolve_text(settings.vote_auth_token_bfd, generic.as_str()),
            vote_auth_token_dboats: resolve_text(
                settings.vote_auth_token_dboats,
                generic.as_str(),
            ),
            vote_auth_token_dlist: resolve_text(settings.vote_auth_token_dlist, generic.as_str()),
            vote_auth_token: generic,
        }
    }
}

} // verus!
