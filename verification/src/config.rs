//! The validated configuration actors are constructed with. The core takes
//! these values as already-parsed, opaque parameters; reading them from a
//! file is the embedding program's business. All durations are in
//! milliseconds.

#![allow(non_snake_case)]

use vstd::prelude::*;

verus! {

/// HTTP client settings shared by every fetching actor.
#[derive(Debug, Clone)]
pub struct HttpCfg {
    pub user_agent: String,
    /// Per-request timeout, in milliseconds.
    pub timeout: u64,
    /// How long an idle pooled connection is kept, in milliseconds.
    pub poolIdleTimeout: u64,
    /// TCP keep-alive interval, in milliseconds.
    pub tcpKeepAlive: u64,
    pub poolMaxIdlePerHost: usize,
}

/// Settings for the external-market catalogue fetcher.
#[derive(Debug, Clone)]
pub struct PolyCfg {
    pub baseUrl: String,
    pub gammaUrl: String,
    /// How often the market list is refreshed, in milliseconds.
    pub marketListRefresh: u64,
    /// Page size for the paginated event fetch.
    pub pageLimit: u32,
    pub ascending: bool,
    pub includeClosed: bool,
}

/// One feed the news fetcher polls.
#[derive(Debug, Clone)]
pub struct RssFeedCfg {
    pub id: String,
    pub url: String,
    pub lang: String,
}

/// Settings for the news feed fetcher.
#[derive(Debug, Clone)]
pub struct RssCfg {
    /// Refresh cadence, in milliseconds.
    pub refresh: u64,
    /// How many feeds are fetched concurrently.
    pub concurrency: usize,
    pub feeds: Vec<RssFeedCfg>,
}

/// Settings for the headline scrape fetcher.
#[derive(Debug, Clone)]
pub struct FinJuiceCfg {
    pub baseUrl: String,
    /// Refresh cadence, in milliseconds.
    pub refresh: u64,
    pub cookie: String,
}

/// The whole application configuration.
#[derive(Debug, Clone)]
pub struct AppCfg {
    pub http: HttpCfg,
    pub polymarket: PolyCfg,
    pub rss: RssCfg,
    pub financial_juice: FinJuiceCfg,
}

/// Why a configuration was rejected; the first failing check, in the order
/// the checks run.
#[derive(Clone, Copy, PartialEq, Eq, Structural, Debug)]
pub enum CfgError {
    /// The market base address is empty.
    PolyBaseUrlMissing,
    /// The market catalogue address is empty.
    GammaUrlMissing,
    /// The feed concurrency bound is zero.
    RssConcurrencyZero,
    /// The feed list is empty.
    RssFeedsEmpty,
    /// The headline scrape base address is empty.
    FinJuiceBaseUrlMissing,
}

/// The user-agent a configuration falls back to.
pub fn default_ua() -> (r: String)
    ensures
        r@ == "polymind/0.1"@,
{
    "polymind/0.1".to_owned()
}

/// The request timeout a configuration falls back to, in milliseconds.
pub fn default_timeout() -> (r: u64)
    ensures
        r == 10_000u64,
{
    10_000
}

/// The pooled-connection bound a configuration falls back to.
pub fn default_pool() -> (r: usize)
    ensures
        r == 16usize,
{
    16
}

/// The page size the paginated event fetch falls back to.
pub fn default_page_limit() -> (r: u32)
    ensures
        r == 100u32,
{
    100
}

impl AppCfg {
    /// A configuration is acceptable when both market addresses are present,
    /// at least one feed is configured, the feed concurrency is positive,
    /// and the headline scrape has a base address.
    pub open spec fn spec_valid(&self) -> bool {
        &&& self.polymarket.baseUrl@.len() > 0
        &&& self.polymarket.gammaUrl@.len() > 0
        &&& self.rss.concurrency > 0
        &&& self.rss.feeds@.len() > 0
        &&& self.financial_juice.baseUrl@.len() > 0
    }

    /// Checks the configuration, reporting the first check that fails:
    /// success exactly on acceptable configurations.
    pub fn validate(&self) -> (r: Result<(), CfgError>)
        ensures
            r is Ok <==> self.spec_valid(),
            r == Err::<(), CfgError>(CfgError::PolyBaseUrlMissing) <==> self.polymarket.baseUrl@.len()
                == 0,
            r == Err::<(), CfgError>(CfgError::GammaUrlMissing) <==> self.polymarket.baseUrl@.len()
                > 0 && self.polymarket.gammaUrl@.len() == 0,
            r == Err::<(), CfgError>(CfgError::RssConcurrencyZero) <==> self.polymarket.baseUrl@.len()
                > 0 && self.polymarket.gammaUrl@.len() > 0 && self.rss.concurrency == 0,
            r == Err::<(), CfgError>(CfgError::RssFeedsEmpty) <==> self.polymarket.baseUrl@.len()
                > 0 && self.polymarket.gammaUrl@.len() > 0 && self.rss.concurrency > 0
                && self.rss.feeds@.len() == 0,
            r == Err::<(), CfgError>(CfgError::FinJuiceBaseUrlMissing) <==> self.polymarket.baseUrl@.len()
                > 0 && self.polymarket.gammaUrl@.len() > 0 && self.rss.concurrency > 0
                && self.rss.feeds@.len() > 0 && self.financial_juice.baseUrl@.len() == 0,
    {
        if self.polymarket.baseUrl.as_str().is_empty() {
            return Err(CfgError::PolyBaseUrlMissing);
        }
        if self.polymarket.gammaUrl.as_str().is_empty() {
            return Err(CfgError::GammaUrlMissing);
        }
        if self.rss.concurrency == 0 {
            return Err(CfgError::RssConcurrencyZero);
        }
        if self.rss.feeds.len() == 0 {
            return Err(CfgError::RssFeedsEmpty);
        }
        if self.financial_juice.baseUrl.as_str().is_empty() {
            return Err(CfgError::FinJuiceBaseUrlMissing);
        }
        Ok(())
    }
}

} // verus!
