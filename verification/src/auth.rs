//! The session store.
//!
//! A session holds zero or one authenticated identity and, lazily, the
//! client built for it. The delegated identity flow itself runs in the
//! host (a browser redirect or popup); the store decides what to ask the
//! provider for, and transitions on the reported outcome. The same holds
//! for client construction: the store hands out the configuration to
//! build from and caches the client once the host reports success.

use vstd::prelude::*;
use crate::network::{NetworkMode, ClientConfig, create_agent, provider_url,
    spec_provider_url, spec_endpoint_url};
use crate::principal::CanisterId;

verus! {

/// Why a session query or transition failed.
#[derive(Debug, PartialEq, Eq)]
pub enum AuthError {
    /// No identity is held, so there is no principal to report.
    NoIdentity,
    /// No authenticated session exists.
    NotAuthenticated,
    /// The host could not build the client; the detail is its report.
    ClientBuildFailed(String),
}

/// The authenticated handle used to make signed remote calls: the
/// settings the host built the agent from, and whether the local root
/// key was fetched as part of the build.
pub struct RemoteClient {
    pub endpoint_url: String,
    pub ingress_expiry_secs: u64,
    pub root_key_fetched: bool,
}

/// Mathematical model of a remote client.
#[verifier::ext_equal]
pub ghost struct ClientModel {
    pub endpoint_url: Seq<char>,
    pub ingress_expiry_secs: u64,
    pub root_key_fetched: bool,
}

impl View for RemoteClient {
    type V = ClientModel;

    open spec fn view(&self) -> ClientModel {
        ClientModel {
            endpoint_url: self.endpoint_url@,
            ingress_expiry_secs: self.ingress_expiry_secs,
            root_key_fetched: self.root_key_fetched,
        }
    }
}

impl RemoteClient {
    /// A copy of the client handle, equal to it.
    pub fn duplicate(&self) -> (r: RemoteClient)
        ensures
            r@ == self@,
    {
        RemoteClient {
            endpoint_url: self.endpoint_url.clone(),
            ingress_expiry_secs: self.ingress_expiry_secs,
            root_key_fetched: self.root_key_fetched,
        }
    }
}

/// The client that a configuration builds: the endpoint and expiry are
/// taken over, and the root key has been fetched exactly when the
/// configuration asked for it.
pub open spec fn client_of_config(cfg: ClientConfig) -> ClientModel {
    ClientModel {
        endpoint_url: cfg.endpoint_url@,
        ingress_expiry_secs: cfg.ingress_expiry_secs,
        root_key_fetched: cfg.fetch_root_key,
    }
}

/// Mathematical model of a session.
#[verifier::ext_equal]
pub ghost struct SessionModel {
    pub authenticated: bool,
    pub principal: Option<Seq<char>>,
    pub client: Option<ClientModel>,
}

/// A fresh session: unauthenticated, with nothing cached.
pub open spec fn spec_new_session() -> SessionModel {
    SessionModel { authenticated: false, principal: None, client: None }
}

/// A session after the provider reported a successful login: the
/// identity is held, and any cached client is invalidated.
pub open spec fn spec_login_succeeded(m: SessionModel, principal: Seq<char>) -> SessionModel {
    SessionModel { authenticated: true, principal: Some(principal), client: None }
}

/// A session after logout: identity and cached client are cleared.
pub open spec fn spec_logout(m: SessionModel) -> SessionModel {
    spec_new_session()
}

/// A session after the host built a client from `cfg` successfully.
pub open spec fn spec_client_installed(m: SessionModel, cfg: ClientConfig) -> SessionModel {
    SessionModel { client: Some(client_of_config(cfg)), ..m }
}

/// A session is well formed when the principal is held exactly while
/// authenticated, and a client is only cached while authenticated.
pub open spec fn session_wf(m: SessionModel) -> bool {
    &&& m.authenticated <==> m.principal is Some
    &&& m.client is Some ==> m.authenticated
}

/// What the identity provider is asked for: where to authorize, and the
/// longest lifetime the signed delegation may have.
pub struct LoginRequest {
    pub identity_provider: String,
    pub max_time_to_live_ns: u64,
}

/// What the session asks of the host next, when a client is wanted.
pub enum AgentStatus {
    /// The cached client; no build and no identity flow is needed.
    Ready(RemoteClient),
    /// No client is cached yet: build one from this configuration.
    NeedsBuild(ClientConfig),
}

/// The session store.
pub struct AuthService {
    authenticated: bool,
    principal: Option<String>,
    agent: Option<RemoteClient>,
}

impl View for AuthService {
    type V = SessionModel;

    closed spec fn view(&self) -> SessionModel {
        SessionModel {
            authenticated: self.authenticated,
            principal: self.principal.deep_view(),
            client: match self.agent {
                Some(a) => Some(a@),
                None => None,
            },
        }
    }
}

impl AuthService {
    /// A fresh, unauthenticated session.
    pub fn new() -> (r: AuthService)
        ensures
            r@ == spec_new_session(),
            session_wf(r@),
    {
        AuthService { authenticated: false, principal: None, agent: None }
    }

    /// The request to put to the identity provider: the provider URL that
    /// the network mode resolves to, and the fixed seven-day delegation
    /// lifetime.
    pub fn login_request(mode: NetworkMode, backend: &CanisterId) -> (r: LoginRequest)
        ensures
            r.identity_provider@ == spec_provider_url(mode, backend@),
            r.max_time_to_live_ns == crate::DELEGATION_MAX_TIME_TO_LIVE_NS,
    {
        LoginRequest {
            identity_provider: provider_url(mode, backend),
            max_time_to_live_ns: crate::DELEGATION_MAX_TIME_TO_LIVE_NS,
        }
    }

    /// Applies the outcome the identity provider reported. On success the
    /// session holds the reported principal and any cached client is
    /// invalidated; on failure nothing changes and the cause is returned.
    pub fn login(&mut self, outcome: Result<String, String>) -> (r: Result<(), String>)
        ensures
            outcome matches Ok(p) ==> final(self)@ =~= spec_login_succeeded(old(self)@, p@)
                && r is Ok,
            outcome matches Err(e) ==> *final(self) == *old(self)
                && (r matches Err(msg) && msg@ == e@),
            session_wf(old(self)@) || outcome is Ok ==> session_wf(final(self)@),
    {
        match outcome {
            Ok(p) => {
                self.authenticated = true;
                self.principal = Some(p);
                self.agent = None;
                Ok(())
            },
            Err(e) => Err(e),
        }
    }

    /// Clears identity and cached client; the session is unauthenticated
    /// afterwards. The host resets its derived state after this call.
    pub fn logout(&mut self)
        ensures
            final(self)@ =~= spec_logout(old(self)@),
            session_wf(final(self)@),
    {
        self.authenticated = false;
        self.principal = None;
        self.agent = None;
    }

    /// Whether an authenticated identity is held.
    pub fn is_authenticated(&self) -> (r: bool)
        ensures
            r == self@.authenticated,
    {
        self.authenticated
    }

    /// The principal of the held identity, or `NoIdentity` when the
    /// session is unauthenticated.
    pub fn get_principal(&self) -> (r: Result<String, AuthError>)
        requires
            session_wf(self@),
        ensures
            self@.authenticated ==> (r matches Ok(p) && Some(p@) == self@.principal),
            !self@.authenticated ==> r == Err::<String, AuthError>(AuthError::NoIdentity),
    {
        match &self.principal {
            Some(p) => Ok(p.clone()),
            None => Err(AuthError::NoIdentity),
        }
    }

    /// The cached client, or what to build one from. Fails with
    /// `NotAuthenticated` when no session exists; returns the cached
    /// client untouched when one is held; otherwise resolves the mode to
    /// a build configuration.
    pub fn get_agent(&self, mode: NetworkMode) -> (r: Result<AgentStatus, AuthError>)
        ensures
            !self@.authenticated ==> r == Err::<AgentStatus, AuthError>(
                AuthError::NotAuthenticated),
            self@.authenticated && self@.client is Some ==> (r matches Ok(
                AgentStatus::Ready(c)) && Some(c@) == self@.client),
            self@.authenticated && self@.client is None ==> (r matches Ok(
                AgentStatus::NeedsBuild(cfg))
                && cfg.endpoint_url@ == spec_endpoint_url(mode)
                && cfg.ingress_expiry_secs == crate::INGRESS_EXPIRY_SECS
                && cfg.fetch_root_key == (mode is Local)),
    {
        if !self.authenticated {
            Err(AuthError::NotAuthenticated)
        } else {
            match &self.agent {
                Some(a) => Ok(AgentStatus::Ready(a.duplicate())),
                None => Ok(AgentStatus::NeedsBuild(create_agent(mode))),
            }
        }
    }

    /// Applies the outcome of a client build the host performed from
    /// `cfg`. On success the client is cached; on failure nothing changes
    /// and the failure is surfaced as `ClientBuildFailed`.
    pub fn install_agent(&mut self, cfg: ClientConfig, outcome: Result<(), String>) -> (r:
        Result<(), AuthError>)
        ensures
            !old(self)@.authenticated ==> *final(self) == *old(self)
                && r == Err::<(), AuthError>(AuthError::NotAuthenticated),
            old(self)@.authenticated && outcome is Ok ==> final(self)@ =~= spec_client_installed(
                old(self)@, cfg) && r is Ok,
            old(self)@.authenticated && outcome is Err ==> *final(self) == *old(self)
                && (r matches Err(AuthError::ClientBuildFailed(d)) && d@ == outcome->Err_0@),
            session_wf(old(self)@) ==> session_wf(final(self)@),
    {
        if !self.authenticated {
            return Err(AuthError::NotAuthenticated);
        }
        match outcome {
            Ok(()) => {
                self.agent = Some(RemoteClient {
                    endpoint_url: cfg.endpoint_url,
                    ingress_expiry_secs: cfg.ingress_expiry_secs,
                    root_key_fetched: cfg.fetch_root_key,
                });
                Ok(())
            },
            Err(e) => Err(AuthError::ClientBuildFailed(e)),
        }
    }
}

/// A successful login authenticates the session, and the client that is
/// then installed is cached: fetching it again finds it, with no further
/// build and no further identity flow. Right after the login itself no
/// stale client is held, so the first fetch is the one that builds.
pub proof fn lemma_login_then_client_cached(m: SessionModel, p: Seq<char>, cfg: ClientConfig)
    ensures
        spec_login_succeeded(m, p).authenticated,
        spec_login_succeeded(m, p).client is None,
        spec_client_installed(spec_login_succeeded(m, p), cfg).authenticated,
        spec_client_installed(spec_login_succeeded(m, p), cfg).client
            == Some(client_of_config(cfg)),
{
}

/// Logout leaves the session unauthenticated with no cached client, and
/// a later re-login still holds no client: the first fetch after it must
/// rebuild.
pub proof fn lemma_logout_clears_session(m: SessionModel, p: Seq<char>)
    ensures
        !spec_logout(m).authenticated,
        spec_logout(m).client is None,
        spec_login_succeeded(spec_logout(m), p).client is None,
{
}


/// The backend canister that hosts the local identity provider.
pub fn backend_canister_id() -> (r: Result<CanisterId, crate::network::ConfigError>)
    ensures
        r is Ok <==> crate::principal::is_principal_text("6zfvq-kiaaa-aaaab-qacra-cai"@),
        r matches Ok(id) ==> id@ == "6zfvq-kiaaa-aaaab-qacra-cai"@ && id.wf(),
{
    CanisterId::from_text("6zfvq-kiaaa-aaaab-qacra-cai")
}

} // verus!
