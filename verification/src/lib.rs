//! Session, client-configuration and upload logic for a car-collection
//! manager backed by a remote asset-storage canister.
//!
//! The library holds the decisions of the application core: the session
//! state machine, the network configuration a client is built from, the
//! upload pipeline that turns selected files into store requests, and the
//! record that collects the resulting asset keys. The host performs the
//! surrounding I/O (identity-provider flow, agent construction, file
//! reads, remote calls) and feeds each outcome back as a plain value.

use vstd::prelude::*;

pub mod auth;
pub mod canisters;
pub mod record;
pub mod upload;
pub mod network;
pub mod principal;

verus! {

/// Number of nanoseconds a delegation is requested for: seven days.
pub const DELEGATION_MAX_TIME_TO_LIVE_NS: u64 = 604_800_000_000_000;

/// Request-expiry timeout applied to every constructed client: five minutes.
pub const INGRESS_EXPIRY_SECS: u64 = 300;

} // verus!
