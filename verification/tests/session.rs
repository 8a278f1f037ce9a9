use upload_images_to_icp_asset::auth::{AgentStatus, AuthError, AuthService};
use upload_images_to_icp_asset::canisters::{asset_canister_id, Canisters};
use upload_images_to_icp_asset::network::{ConfigError, NetworkMode};
use upload_images_to_icp_asset::principal::CanisterId;
use upload_images_to_icp_asset::{DELEGATION_MAX_TIME_TO_LIVE_NS, INGRESS_EXPIRY_SECS};

const PRINCIPAL: &str = "w3gef-eqbai";

#[test]
fn fresh_session_is_unauthenticated() {
    let service = AuthService::new();
    assert!(!service.is_authenticated());
    assert!(matches!(service.get_principal(), Err(AuthError::NoIdentity)));
    assert!(matches!(
        service.get_agent(NetworkMode::Live),
        Err(AuthError::NotAuthenticated)
    ));
}

#[test]
fn login_success_authenticates_and_client_is_cached() {
    let mut service = AuthService::new();
    let logged = service.login(Ok(PRINCIPAL.to_string()));
    assert!(logged.is_ok());
    assert!(service.is_authenticated());
    assert_eq!(service.get_principal().unwrap(), PRINCIPAL);

    // First fetch after login: no client is cached yet, so a build is asked for.
    let status = service.get_agent(NetworkMode::Live).unwrap();
    let cfg = match status {
        AgentStatus::NeedsBuild(cfg) => cfg,
        AgentStatus::Ready(_) => panic!("no client can be cached before a build"),
    };
    assert_eq!(cfg.endpoint_url, "https://ic0.app");
    assert_eq!(cfg.ingress_expiry_secs, INGRESS_EXPIRY_SECS);
    assert!(!cfg.fetch_root_key);

    // The host builds successfully; from then on the cached client comes
    // back without any further build or identity flow.
    service.install_agent(cfg, Ok(())).unwrap();
    match service.get_agent(NetworkMode::Live).unwrap() {
        AgentStatus::Ready(client) => {
            assert_eq!(client.endpoint_url, "https://ic0.app");
            assert_eq!(client.ingress_expiry_secs, INGRESS_EXPIRY_SECS);
            assert!(!client.root_key_fetched);
        }
        AgentStatus::NeedsBuild(_) => panic!("the installed client must be returned"),
    }
}

#[test]
fn login_failure_leaves_session_unauthenticated() {
    let mut service = AuthService::new();
    let logged = service.login(Err("provider rejected the request".to_string()));
    assert_eq!(logged, Err("provider rejected the request".to_string()));
    assert!(!service.is_authenticated());
}

#[test]
fn logout_clears_identity_and_cached_client() {
    let mut service = AuthService::new();
    service.login(Ok(PRINCIPAL.to_string())).unwrap();
    let cfg = match service.get_agent(NetworkMode::Live).unwrap() {
        AgentStatus::NeedsBuild(cfg) => cfg,
        AgentStatus::Ready(_) => panic!("no client can be cached before a build"),
    };
    service.install_agent(cfg, Ok(())).unwrap();

    service.logout();
    assert!(!service.is_authenticated());
    assert!(matches!(service.get_principal(), Err(AuthError::NoIdentity)));
    assert!(matches!(
        service.get_agent(NetworkMode::Live),
        Err(AuthError::NotAuthenticated)
    ));

    // After a re-login the old client is gone: a fresh fetch must rebuild.
    service.login(Ok(PRINCIPAL.to_string())).unwrap();
    assert!(matches!(
        service.get_agent(NetworkMode::Live),
        Ok(AgentStatus::NeedsBuild(_))
    ));
}

#[test]
fn local_client_build_failure_surfaces_and_caches_nothing() {
    let mut service = AuthService::new();
    service.login(Ok(PRINCIPAL.to_string())).unwrap();

    let cfg = match service.get_agent(NetworkMode::Local).unwrap() {
        AgentStatus::NeedsBuild(cfg) => cfg,
        AgentStatus::Ready(_) => panic!("no client can be cached before a build"),
    };
    assert_eq!(cfg.endpoint_url, "http://127.0.0.1:4943");
    assert!(cfg.fetch_root_key);

    let failed = service.install_agent(cfg, Err("connection refused".to_string()));
    assert_eq!(
        failed,
        Err(AuthError::ClientBuildFailed("connection refused".to_string()))
    );

    // Nothing was cached, so nothing can be uploaded with: a client is
    // still only to be built.
    assert!(matches!(
        service.get_agent(NetworkMode::Local),
        Ok(AgentStatus::NeedsBuild(_))
    ));
}

#[test]
fn login_request_carries_provider_url_and_lifetime() {
    let backend = CanisterId::from_text("6zfvq-kiaaa-aaaab-qacra-cai").unwrap();
    let live = AuthService::login_request(NetworkMode::Live, &backend);
    assert_eq!(live.identity_provider, "https://identity.ic0.app/#authorize");
    assert_eq!(live.max_time_to_live_ns, DELEGATION_MAX_TIME_TO_LIVE_NS);
    assert_eq!(live.max_time_to_live_ns, 7 * 24 * 60 * 60 * 1_000_000_000);

    let local = AuthService::login_request(NetworkMode::Local, &backend);
    assert_eq!(
        local.identity_provider,
        "http://6zfvq-kiaaa-aaaab-qacra-cai.localhost:4943"
    );
}

#[test]
fn network_mode_setting_is_read_strictly() {
    assert_eq!(NetworkMode::from_setting("LOCAL"), Ok(NetworkMode::Local));
    assert_eq!(NetworkMode::from_setting("LIVE"), Ok(NetworkMode::Live));
    assert_eq!(
        NetworkMode::from_setting("STAGING"),
        Err(ConfigError::UnknownNetwork("STAGING".to_string()))
    );
    assert_eq!(
        NetworkMode::from_setting("local"),
        Err(ConfigError::UnknownNetwork("local".to_string()))
    );
}

#[test]
fn canister_ids_are_validated_by_the_platform_parser() {
    let id = CanisterId::from_text("6zfvq-kiaaa-aaaab-qacra-cai").unwrap();
    assert_eq!(id.as_str(), "6zfvq-kiaaa-aaaab-qacra-cai");

    let bad = CanisterId::from_text("not-a-principal!");
    assert_eq!(
        bad,
        Err(ConfigError::InvalidPrincipal("not-a-principal!".to_string()))
    );

    // The same digits dashed into the wrong groups are rejected too.
    assert!(CanisterId::from_text("6zfvqkiaaa-aaaabqacra-cai").is_err());

    assert_eq!(
        asset_canister_id().unwrap().as_str(),
        "zcs7y-5iaaa-aaaam-adxfq-cai"
    );
}

#[test]
fn canisters_wrap_the_client_and_fixed_provision_principal() {
    let mut service = AuthService::new();
    service.login(Ok(PRINCIPAL.to_string())).unwrap();
    let cfg = match service.get_agent(NetworkMode::Live).unwrap() {
        AgentStatus::NeedsBuild(cfg) => cfg,
        AgentStatus::Ready(_) => panic!("no client can be cached before a build"),
    };
    service.install_agent(cfg, Ok(())).unwrap();
    let client = match service.get_agent(NetworkMode::Live).unwrap() {
        AgentStatus::Ready(client) => client,
        AgentStatus::NeedsBuild(_) => panic!("the installed client must be returned"),
    };

    let canisters = Canisters::new(client).unwrap();
    assert_eq!(
        canisters.provision_principal.as_str(),
        "6zfvq-kiaaa-aaaab-qacra-cai"
    );
    let provision = canisters.provision_canister();
    assert_eq!(provision.0.as_str(), "6zfvq-kiaaa-aaaab-qacra-cai");
    assert_eq!(provision.1.endpoint_url, "https://ic0.app");

    let proxy = canisters.asset_proxy_canister(asset_canister_id().unwrap());
    assert_eq!(proxy.0.as_str(), "zcs7y-5iaaa-aaaam-adxfq-cai");
    assert_eq!(proxy.1.endpoint_url, "https://ic0.app");
}
