//! Outbound calls, described for the caller to perform.

use vstd::prelude::*;
use vstd::string::StringExecFns;
use crate::text::{decimal, decimal_text};

verus! {

/// The user agent sent with equity requests.
pub open spec fn brief_agent() -> Seq<char> {
    "Mozilla/5.0 (Windows NT 10.0; Win64; x64) AppleWebKit/537.36"@
}

/// The user agent sent with token price requests.
pub open spec fn browser_agent() -> Seq<char> {
    "Mozilla/5.0 (Windows NT 10.0; Win64; x64) AppleWebKit/537.36 (KHTML, like Gecko) Chrome/131.0.0.0 Safari/537.36"@
}

/// The media type asked for where one is asked for.
pub open spec fn json_media_type() -> Seq<char> {
    "application/json"@
}

/// Seconds allowed for a token price call.
pub const PRICE_TIMEOUT_SECONDS: u64 = 5;

/// Seconds allowed for a token statistics call.
pub const STATS_TIMEOUT_SECONDS: u64 = 10;

/// A GET request: where to, with which headers, and how long to wait.
#[derive(Clone, Debug, PartialEq, Eq)]
pub struct Request {
    pub url: String,
    pub user_agent: Option<&'static str>,
    pub accept: Option<&'static str>,
    pub timeout_seconds: Option<u64>,
}

/// The mathematical content of a [`Request`].
pub struct RequestModel {
    pub url: Seq<char>,
    pub user_agent: Option<Seq<char>>,
    pub accept: Option<Seq<char>>,
    pub timeout_seconds: Option<u64>,
}

impl DeepView for Request {
    type V = RequestModel;

    open spec fn deep_view(&self) -> RequestModel {
        RequestModel {
            url: self.url@,
            user_agent: self.user_agent.deep_view(),
            accept: self.accept.deep_view(),
            timeout_seconds: self.timeout_seconds,
        }
    }
}

/// The address of an equity's chart at an interval over a range.
pub open spec fn chart_url(
    symbol: Seq<char>,
    interval: Seq<char>,
    range: Seq<char>,
    stamp: nat,
) -> Seq<char> {
    "https://query1.finance.yahoo.com/v8/finance/chart/"@ + symbol + "?interval="@ + interval
        + "&range="@ + range + "&_t="@ + decimal(stamp)
}

/// The address of an equity's quote: one day by the minute, extended hours included.
pub open spec fn quote_url(symbol: Seq<char>, stamp: nat) -> Seq<char> {
    "https://query1.finance.yahoo.com/v8/finance/chart/"@ + symbol
        + "?interval=1m&range=1d&includePrePost=true&_t="@ + decimal(stamp)
}

/// The address of Jupiter's price of one mint.
pub open spec fn jupiter_url(address: Seq<char>) -> Seq<char> {
    "https://lite-api.jup.ag/price/v3?ids="@ + address
}

/// The address of Raydium's price of one mint.
pub open spec fn raydium_url(address: Seq<char>) -> Seq<char> {
    "https://api-v3.raydium.io/mint/price?mints="@ + address
}

/// The address of GeckoTerminal's price of one token on a network.
pub open spec fn gecko_url(network: Seq<char>, address: Seq<char>) -> Seq<char> {
    "https://api.geckoterminal.com/api/v2/simple/networks/"@ + network + "/token_price/"@
        + address
}

/// The address of DexScreener's record of one pair on a chain.
pub open spec fn dex_pair_url(chain_id: Seq<char>, pair_address: Seq<char>) -> Seq<char> {
    "https://api.dexscreener.com/latest/dex/pairs/"@ + chain_id + "/"@ + pair_address
}

/// The address of DexScreener's pairs of one token.
pub open spec fn dex_tokens_url(address: Seq<char>) -> Seq<char> {
    "https://api.dexscreener.com/latest/dex/tokens/"@ + address
}

/// An equity request: the brief user agent, no media type, no time limit.
pub open spec fn equity_request(url: Seq<char>) -> RequestModel {
    RequestModel {
        url,
        user_agent: Some(brief_agent()),
        accept: None,
        timeout_seconds: None,
    }
}

/// A token price request: the browser's user agent, five seconds, and a
/// media type where `accept` says so.
pub open spec fn price_request(url: Seq<char>, accept: bool) -> RequestModel {
    RequestModel {
        url,
        user_agent: Some(browser_agent()),
        accept: if accept {
            Some(json_media_type())
        } else {
            None
        },
        timeout_seconds: Some(PRICE_TIMEOUT_SECONDS),
    }
}

/// A token statistics request: no headers, ten seconds.
pub open spec fn stats_request(url: Seq<char>) -> RequestModel {
    RequestModel {
        url,
        user_agent: None,
        accept: None,
        timeout_seconds: Some(STATS_TIMEOUT_SECONDS),
    }
}

impl Request {
    /// An equity request to an address.
    pub fn for_equity(url: String) -> (r: Request)
        ensures
            r.deep_view() == equity_request(url@),
    {
        Request {
            url,
            user_agent: Some("Mozilla/5.0 (Windows NT 10.0; Win64; x64) AppleWebKit/537.36"),
            accept: None,
            timeout_seconds: None,
        }
    }

    /// A token price request to an address.
    pub fn for_price(url: String, accept: bool) -> (r: Request)
        ensures
            r.deep_view() == price_request(url@, accept),
    {
        Request {
            url,
            user_agent: Some(
                "Mozilla/5.0 (Windows NT 10.0; Win64; x64) AppleWebKit/537.36 (KHTML, like Gecko) Chrome/131.0.0.0 Safari/537.36",
            ),
            accept: if accept {
                Some("application/json")
            } else {
                None
            },
            timeout_seconds: Some(PRICE_TIMEOUT_SECONDS),
        }
    }

    /// A token statistics request to an address.
    pub fn for_stats(url: String) -> (r: Request)
        ensures
            r.deep_view() == stats_request(url@),
    {
        Request {
            url,
            user_agent: None,
            accept: None,
            timeout_seconds: Some(STATS_TIMEOUT_SECONDS),
        }
    }
}

/// The request for an equity's chart: candles at `interval` over `range`.
/// `stamp` is the current time in epoch seconds; it only makes the address
/// new, so that no cache answers.
pub fn chart_request(symbol: &str, interval: &str, range: &str, stamp: u64) -> (r: Request)
    ensures
        r.deep_view() == equity_request(chart_url(symbol@, interval@, range@, stamp as nat)),
{
    let mut url: String = String::from_str("https://query1.finance.yahoo.com/v8/finance/chart/");
    url.append(symbol);
    url.append("?interval=");
    url.append(interval);
    url.append("&range=");
    url.append(range);
    url.append("&_t=");
    let digits: String = decimal_text(stamp);
    url.append(digits.as_str());
    Request::for_equity(url)
}

/// The request for an equity's quote: one day of one-minute candles, with
/// the hours before and after the regular session.
pub fn quote_request(symbol: &str, stamp: u64) -> (r: Request)
    ensures
        r.deep_view() == equity_request(quote_url(symbol@, stamp as nat)),
{
    let mut url: String = String::from_str("https://query1.finance.yahoo.com/v8/finance/chart/");
    url.append(symbol);
    url.append("?interval=1m&range=1d&includePrePost=true&_t=");
    let digits: String = decimal_text(stamp);
    url.append(digits.as_str());
    Request::for_equity(url)
}

/// Builds the address of Jupiter's price of one mint.
pub fn jupiter_address(address: &str) -> (url: String)
    ensures
        url@ == jupiter_url(address@),
{
    let mut url: String = String::from_str("https://lite-api.jup.ag/price/v3?ids=");
    url.append(address);
    url
}

/// Builds the address of Raydium's price of one mint.
pub fn raydium_address(address: &str) -> (url: String)
    ensures
        url@ == raydium_url(address@),
{
    let mut url: String = String::from_str("https://api-v3.raydium.io/mint/price?mints=");
    url.append(address);
    url
}

/// Builds the address of GeckoTerminal's price of one token on a network.
pub fn gecko_address(network: &str, address: &str) -> (url: String)
    ensures
        url@ == gecko_url(network@, address@),
{
    let mut url: String = String::from_str(
        "https://api.geckoterminal.com/api/v2/simple/networks/",
    );
    url.append(network);
    url.append("/token_price/");
    url.append(address);
    url
}

/// Builds the address of DexScreener's record of one pair on a chain.
pub fn dex_pair_address(chain_id: &str, pair_address: &str) -> (url: String)
    ensures
        url@ == dex_pair_url(chain_id@, pair_address@),
{
    let mut url: String = String::from_str("https://api.dexscreener.com/latest/dex/pairs/");
    url.append(chain_id);
    url.append("/");
    url.append(pair_address);
    url
}

/// Builds the address of DexScreener's pairs of one token.
pub fn dex_tokens_address(address: &str) -> (url: String)
    ensures
        url@ == dex_tokens_url(address@),
{
    let mut url: String = String::from_str("https://api.dexscreener.com/latest/dex/tokens/");
    url.append(address);
    url
}

} // verus!
