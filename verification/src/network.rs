//! Network-mode configuration and client settings.
//!
//! A deployment runs against either a local replica or the live network.
//! The mode decides the identity-provider URL, the endpoint a client
//! talks to, and whether the client must fetch the local root key before
//! it is trusted. An unrecognized mode is a configuration error and is
//! rejected outright.

use vstd::prelude::*;
use vstd::string::StringExecFns;
use crate::principal::CanisterId;

verus! {

/// The deployment a session talks to.
#[derive(Clone, Copy, PartialEq, Eq, Structural, Debug)]
pub enum NetworkMode {
    /// A local development replica.
    Local,
    /// The production network.
    Live,
}

/// A configuration problem: fatal, never recovered from.
#[derive(Debug, PartialEq, Eq)]
pub enum ConfigError {
    /// The network-mode setting matched no known deployment.
    UnknownNetwork(String),
    /// A principal text did not parse.
    InvalidPrincipal(String),
}

impl NetworkMode {
    /// Reads the network-mode setting. Exactly "LOCAL" and "LIVE" are
    /// recognized; anything else is the fatal configuration error.
    pub fn from_setting(s: &str) -> (r: Result<NetworkMode, ConfigError>)
        ensures
            s@ == "LOCAL"@ ==> r == Ok::<NetworkMode, ConfigError>(NetworkMode::Local),
            s@ == "LIVE"@ ==> r == Ok::<NetworkMode, ConfigError>(NetworkMode::Live),
            s@ != "LOCAL"@ && s@ != "LIVE"@ ==> (r matches Err(ConfigError::UnknownNetwork(m))
                && m@ == s@),
    {
        proof {
            reveal_strlit("LOCAL");
            reveal_strlit("LIVE");
            assert("LOCAL"@.len() == 5);
            assert("LIVE"@.len() == 4);
        }
        let owned: String = s.to_owned();
        if owned == String::from_str("LOCAL") {
            Ok(NetworkMode::Local)
        } else if owned == String::from_str("LIVE") {
            Ok(NetworkMode::Live)
        } else {
            Err(ConfigError::UnknownNetwork(owned))
        }
    }
}

/// What a remote client is built from: the endpoint, the request-expiry
/// bound, and whether the local root key must be fetched first.
pub struct ClientConfig {
    pub endpoint_url: String,
    pub ingress_expiry_secs: u64,
    pub fetch_root_key: bool,
}

/// The endpoint URL that each mode resolves to.
pub open spec fn spec_endpoint_url(mode: NetworkMode) -> Seq<char> {
    match mode {
        NetworkMode::Local => "http://127.0.0.1:4943"@,
        NetworkMode::Live => "https://ic0.app"@,
    }
}

/// Resolves a network mode to the settings a client is built from: the
/// mode's endpoint, the fixed five-minute request expiry, and a root-key
/// fetch exactly in local mode.
pub fn create_agent(mode: NetworkMode) -> (r: ClientConfig)
    ensures
        r.endpoint_url@ == spec_endpoint_url(mode),
        r.ingress_expiry_secs == crate::INGRESS_EXPIRY_SECS,
        r.fetch_root_key == (mode is Local),
{
    let endpoint_url = match mode {
        NetworkMode::Local => String::from_str("http://127.0.0.1:4943"),
        NetworkMode::Live => String::from_str("https://ic0.app"),
    };
    ClientConfig {
        endpoint_url,
        ingress_expiry_secs: crate::INGRESS_EXPIRY_SECS,
        fetch_root_key: matches!(mode, NetworkMode::Local),
    }
}

/// The identity-provider URL of the local replica, derived from the
/// backend canister and the replica's fixed port.
pub open spec fn spec_local_provider_url(canister_text: Seq<char>) -> Seq<char> {
    "http://"@ + canister_text + ".localhost:4943"@
}

/// The identity-provider URL of the live network.
pub open spec fn spec_live_provider_url() -> Seq<char> {
    "https://identity.ic0.app/#authorize"@
}

/// The identity-provider URL for a mode, given the backend canister that
/// hosts the local provider.
pub open spec fn spec_provider_url(mode: NetworkMode, backend: Seq<char>) -> Seq<char> {
    match mode {
        NetworkMode::Local => spec_local_provider_url(backend),
        NetworkMode::Live => spec_live_provider_url(),
    }
}

/// Builds the identity-provider URL for a mode.
pub fn provider_url(mode: NetworkMode, backend: &CanisterId) -> (r: String)
    ensures
        r@ == spec_provider_url(mode, backend@),
{
    match mode {
        NetworkMode::Local => {
            let url = String::from_str("http://");
            let url = url.concat(backend.as_str());
            let url = url.concat(".localhost:4943");
            proof {
                assert(url@ =~= spec_local_provider_url(backend@));
            }
            url
        },
        NetworkMode::Live => String::from_str("https://identity.ic0.app/#authorize"),
    }
}

} // verus!
