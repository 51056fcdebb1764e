//! Fixed values of the relay: task kinds, source tags and defaults.

use vstd::prelude::*;

verus! {

/// Kind of a task that carries a vote to deliver.
pub const CACHE_TASK_OP_VOTE: u8 = 0;

/// Kind of a task that starts a resend cycle.
pub const CACHE_TASK_OP_RESEND: u8 = 1;

/// Tag of a vote that entered through the generic endpoint without naming a source.
pub const PAGE_KEY_GENERIC: &'static str = "generic";

/// Tag of top.gg.
pub const PAGE_KEY_TOPGG: &'static str = "topgg";

/// Tag of discordbotlist.com.
pub const PAGE_KEY_DBL: &'static str = "dbl";

/// Tag of botsfordiscord.com.
pub const PAGE_KEY_BFD: &'static str = "bfd";

/// Tag of discord.boats.
pub const PAGE_KEY_DBOATS: &'static str = "dboats";

/// Tag of discordlist.gg, whose notifications are signed envelopes.
pub const PAGE_KEY_DLIST: &'static str = "dlist";

/// How many tasks may wait between the request handlers and the processing actor.
pub const TASK_QUEUE_CAPACITY: usize = 128;

/// The header in which the relay shows its secret to the endpoint.
pub const AUTHORIZATION_HEADER: &'static str = "Authorization";

/// Where votes are forwarded to, unless the settings say otherwise.
pub const DEFAULT_VOTE_ENDPOINT: &'static str = "http//api.server.dev/vote";

/// The generic secret, unless the settings say otherwise.
pub const DEFAULT_AUTH_TOKEN: &'static str = "secret";

/// Seconds between two resend cycles, unless the settings say otherwise.
pub const DEFAULT_RESEND_DELAY: u64 = 5;

/// Most votes that one resend cycle delivers, unless the settings say otherwise.
pub const DEFAULT_RESEND_BULK_COUNT: u32 = 100;

} // verus!
