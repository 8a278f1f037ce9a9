//! Handles for the remote canisters.
//!
//! Once a session has a built client, calls go to two services: the
//! provisioning canister, at a fixed principal, and the asset-storage
//! canister an upload batch is submitted to. A handle pairs the target
//! canister with the client that signs the call; the call itself (a
//! candid-encoded update) is the host's to make.

use vstd::prelude::*;
use crate::auth::RemoteClient;
use crate::network::ConfigError;
use crate::principal::{CanisterId, is_principal_text};

verus! {

/// A handle for calls to the provisioning canister.
pub struct Provision<'a>(pub &'a CanisterId, pub &'a RemoteClient);

/// A handle for calls to an asset-storage canister.
pub struct AssetProxy<'a>(pub CanisterId, pub &'a RemoteClient);

/// The asset-storage canister that upload batches are submitted to.
pub fn asset_canister_id() -> (r: Result<CanisterId, ConfigError>)
    ensures
        r is Ok <==> is_principal_text("zcs7y-5iaaa-aaaam-adxfq-cai"@),
        r matches Ok(id) ==> id@ == "zcs7y-5iaaa-aaaam-adxfq-cai"@ && id.wf(),
{
    CanisterId::from_text("zcs7y-5iaaa-aaaam-adxfq-cai")
}

/// The canister services reachable through one built client.
pub struct Canisters {
    /// The client that signs every call.
    pub agent: RemoteClient,
    /// The principal the provisioning canister is addressed by.
    pub provision_principal: CanisterId,
}

impl Canisters {
    /// The provisioning principal is only ever held validated.
    pub open spec fn wf(&self) -> bool {
        self.provision_principal.wf()
    }

    /// Wraps a built client together with the fixed provisioning
    /// principal.
    pub fn new(agent: RemoteClient) -> (r: Result<Canisters, ConfigError>)
        ensures
            r is Ok <==> is_principal_text("6zfvq-kiaaa-aaaab-qacra-cai"@),
            r matches Ok(c) ==> c.agent@ == agent@
                && c.provision_principal@ == "6zfvq-kiaaa-aaaab-qacra-cai"@
                && c.wf(),
    {
        let provision_principal = CanisterId::from_text("6zfvq-kiaaa-aaaab-qacra-cai")?;
        Ok(Canisters { agent, provision_principal })
    }

    /// The client the handles sign with.
    pub fn agent(&self) -> (r: &RemoteClient)
        ensures
            r@ == self.agent@,
    {
        &self.agent
    }

    /// The handle for calls to the provisioning canister.
    pub fn provision_canister(&self) -> (r: Provision<'_>)
        ensures
            r.0@ == self.provision_principal@,
            r.1@ == self.agent@,
    {
        Provision(&self.provision_principal, &self.agent)
    }

    /// The handle for calls to the asset-storage canister `canister_id`.
    pub fn asset_proxy_canister(&self, canister_id: CanisterId) -> (r: AssetProxy<'_>)
        ensures
            r.0@ == canister_id@,
            r.1@ == self.agent@,
    {
        AssetProxy(canister_id, &self.agent)
    }
}

} // verus!
