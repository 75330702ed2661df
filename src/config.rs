//! Settings the bot starts with.

use vstd::prelude::*;
use vstd::string::*;

verus! {

/// Chat platform settings.
#[derive(Debug, Clone)]
pub struct DiscordConfig {
    pub token: String,
    pub guild_id: Option<u64>,
    pub channel_id: Option<u64>,
}

/// All settings, with defaults for the optional ones.
#[derive(Debug, Clone)]
pub struct Config {
    pub discord: DiscordConfig,
    pub arxiv_search_query: String,
    pub arxiv_max_results: usize,
    pub collection_schedule: String,
}

/// The search run when a request names none.
pub fn default_query() -> (r: String)
    ensures
        r@ == "cat:cs.AI"@,
{
    String::from_str("cat:cs.AI")
}

/// How many results a request asks for when it names no number.
pub fn default_max_results() -> (r: usize)
    ensures
        r == 10,
{
    10
}

/// The periodic collection's cron schedule (seconds first): daily at nine.
pub fn default_schedule() -> (r: String)
    ensures
        r@ == "0 0 9 * * *"@,
{
    String::from_str("0 0 9 * * *")
}

} // verus!
