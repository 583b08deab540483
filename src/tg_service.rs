use vstd::prelude::*;
use crate::decimal::{decimal, decimal_string};
use crate::router::LONG_POLL_TIMEOUT_SECS;

verus! {

/// Where the platform's API is and the bot account's credential.
#[derive(Clone, Debug, PartialEq, Eq)]
pub struct TgClientConfig {
    pub api_url: String,
    pub bot_id: i64,
    pub bot_secret: String,
}

/// The prefix of every request of the bot: `<api>/bot<id>:<secret>/`.
pub open spec fn base_url_of(c: TgClientConfig) -> Seq<char> {
    c.api_url@ + "/bot"@ + decimal(c.bot_id as int) + ":"@ + c.bot_secret@ + "/"@
}

/// The long-poll request from an offset, with the fixed wait timeout.
pub open spec fn updates_url_of(base: Seq<char>, offset: int) -> Seq<char> {
    base + "getUpdates?timeout="@ + decimal(LONG_POLL_TIMEOUT_SECS as int) + "&offset="@ + decimal(offset)
}

impl TgClientConfig {
    /// The prefix of every request of this bot (see `base_url_of`).
    pub fn base_url(&self) -> (r: String)
        ensures
            r@ == base_url_of(*self),
    {
        let r = self.api_url.clone().concat("/bot");
        let r = r.concat(decimal_string(self.bot_id).as_str());
        let r = r.concat(":");
        let r = r.concat(self.bot_secret.as_str());
        r.concat("/")
    }
}

/// The long-poll request from `offset` (see `updates_url_of`).
pub fn updates_url(base: &str, offset: i64) -> (r: String)
    ensures
        r@ == updates_url_of(base@, offset as int),
{
    let r = String::from_str(base).concat("getUpdates?timeout=");
    let r = r.concat(decimal_string(LONG_POLL_TIMEOUT_SECS as i64).as_str());
    let r = r.concat("&offset=");
    r.concat(decimal_string(offset).as_str())
}

/// The request that performs a platform method: the prefix, then the
/// method's name.
pub fn method_url(base: &str, method: &str) -> (r: String)
    ensures
        r@ == base@ + method@,
{
    String::from_str(base).concat(method)
}

} // verus!
