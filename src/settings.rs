use vstd::prelude::*;
use crate::tg_service::TgClientConfig;

verus! {

/// What the bot is started with: where its store is and how it reaches the
/// platform.
#[derive(Clone, Debug, PartialEq, Eq)]
pub struct Config {
    pub redis_url: String,
    pub tg: TgClientConfig,
}

} // verus!
