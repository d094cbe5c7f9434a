//! Session configuration and endpoint selection.
//!
//! A process runs against exactly one network environment, the production
//! exchange or its test network, and the pair of websocket and REST base
//! URLs is a function of that single flag, so mixing endpoints of the two
//! environments is impossible by construction. The margin flag selects only
//! which REST path manages the listen key; nothing else depends on it.

use vstd::prelude::*;

verus! {

/// Bounded timeout of every signed REST call, in milliseconds.
pub const REST_TIMEOUT_MS: u64 = 3000;

/// Immutable per-process configuration, loaded once at startup.
pub struct Config {
    /// Whether the account is a margin account; selects the listen-key path.
    pub margin: bool,
    /// API key used by the signed REST client.
    pub apikey: String,
    /// Private key material used to sign REST requests.
    pub pem: String,
    /// Local bind or log path of the process.
    pub local: String,
    /// Whether the process talks to the test network instead of production.
    pub testnet: bool,
}

/// The public market-data websocket base URL of the test network.
pub open spec fn spec_testnet_ws_url() -> Seq<char> {
    "wss://stream.testnet.binance.vision/ws"@
}

/// The public market-data websocket base URL of the production network.
pub open spec fn spec_production_ws_url() -> Seq<char> {
    "wss://stream.binance.com:9443/ws"@
}

/// The REST base URL of the test network.
pub open spec fn spec_testnet_api_url() -> Seq<char> {
    "https://testnet.binance.vision"@
}

/// The REST base URL of the production network.
pub open spec fn spec_production_api_url() -> Seq<char> {
    "https://api.binance.com"@
}

/// The websocket base URL of the chosen environment.
pub open spec fn spec_ws_url(testnet: bool) -> Seq<char> {
    if testnet {
        spec_testnet_ws_url()
    } else {
        spec_production_ws_url()
    }
}

/// The REST base URL of the chosen environment.
pub open spec fn spec_api_url(testnet: bool) -> Seq<char> {
    if testnet {
        spec_testnet_api_url()
    } else {
        spec_production_api_url()
    }
}

/// The listen-key management path of the chosen account flavor.
pub open spec fn spec_listen_key_path(margin: bool) -> Seq<char> {
    if margin {
        "/sapi/v1/userDataStream"@
    } else {
        "/api/v3/userDataStream"@
    }
}

/// Resolves the optional test-network flag of a configuration file: absent
/// means the safe default, the test network.
pub fn resolve_testnet(test: Option<bool>) -> (r: bool)
    ensures
        r == (match test {
            Option::Some(b) => b,
            Option::None => true,
        }),
{
    match test {
        Option::Some(b) => b,
        Option::None => true,
    }
}

/// The public market-data websocket base URL of the chosen environment.
pub fn market_ws_url(testnet: bool) -> (r: &'static str)
    ensures
        r@ == spec_ws_url(testnet),
{
    if testnet {
        "wss://stream.testnet.binance.vision/ws"
    } else {
        "wss://stream.binance.com:9443/ws"
    }
}

/// The REST base URL of the chosen environment.
pub fn rest_api_url(testnet: bool) -> (r: &'static str)
    ensures
        r@ == spec_api_url(testnet),
{
    if testnet {
        "https://testnet.binance.vision"
    } else {
        "https://api.binance.com"
    }
}

/// Both base URLs of the chosen environment, websocket first. The two always
/// come from the same environment: either both of the test network or both
/// of production, never one of each.
pub fn endpoints(testnet: bool) -> (r: (&'static str, &'static str))
    ensures
        r.0@ == spec_ws_url(testnet),
        r.1@ == spec_api_url(testnet),
{
    (market_ws_url(testnet), rest_api_url(testnet))
}

/// The REST path that creates and renews the listen key: one path for a
/// margin account, another for a spot account; the lifecycle around it is
/// identical.
pub fn listen_key_path(margin: bool) -> (r: &'static str)
    ensures
        r@ == spec_listen_key_path(margin),
{
    if margin {
        "/sapi/v1/userDataStream"
    } else {
        "/api/v3/userDataStream"
    }
}

impl Config {
    /// Builds the configuration from the plain values of a configuration
    /// file, resolving the optional test-network flag to its default.
    pub fn new(margin: bool, apikey: String, pem: String, local: String, test: Option<bool>) -> (r: Config)
        ensures
            r.margin == margin,
            r.apikey == apikey,
            r.pem == pem,
            r.local == local,
            r.testnet == (match test {
                Option::Some(b) => b,
                Option::None => true,
            }),
    {
        Config {
            margin,
            apikey,
            pem,
            local,
            testnet: resolve_testnet(test),
        }
    }

    /// The websocket base URL this configuration selects.
    pub fn ws_url(&self) -> (r: &'static str)
        ensures
            r@ == spec_ws_url(self.testnet),
    {
        market_ws_url(self.testnet)
    }

    /// The REST base URL this configuration selects.
    pub fn api_url(&self) -> (r: &'static str)
        ensures
            r@ == spec_api_url(self.testnet),
    {
        rest_api_url(self.testnet)
    }

    /// The listen-key management path this configuration selects.
    pub fn listen_key_path(&self) -> (r: &'static str)
        ensures
            r@ == spec_listen_key_path(self.margin),
    {
        listen_key_path(self.margin)
    }
}

} // verus!
