//! Relay core for vote notifications.
//!
//! Bot-listing services announce votes in formats of their own. This crate
//! brings every format to one canonical vote, decides whether a request may
//! pass, shapes the request that hands a vote to the downstream endpoint,
//! judges the endpoint's answer, and keeps the votes that could not be
//! delivered in a queue that is drained again in bounded, fail-fast cycles.
//!
//! The crate performs no I/O. Whoever embeds it loads the settings, runs the
//! HTTP server and client, and reports what happened.

pub mod cache_task;
pub mod config;
pub mod constants;
pub mod decimal;
pub mod intake;
pub mod json;
pub mod snowflake;
pub mod text;
pub mod vote_cache;
pub mod vote_handler;
pub mod vote_request;
