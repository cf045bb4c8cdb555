use scs_connection::{
    connect, first_address, select_strategy, Connection, ConnectionArgs, ConnectionConfig,
    ConnectionError, Environment, Platform, TransportParams, TransportStrategy, DEFAULT_CLIENT_ID,
    DEFAULT_TIER,
};

fn config(tier: &str, endpoint: Option<&str>, shard: Option<&str>) -> ConnectionConfig {
    ConnectionConfig {
        client_id: "x".to_string(),
        tier: tier.to_string(),
        explicit_endpoint: endpoint.map(|s| s.to_string()),
        shard_domain: shard.map(|s| s.to_string()),
    }
}

const PLATFORMS: [Platform; 4] = [Platform::Linux, Platform::MacOS, Platform::Windows, Platform::Other];

#[test]
fn explicit_endpoint_uses_direct_transport() {
    let c = config("t", Some("10.0.0.1:443"), None);
    let p = connect(&c, &Environment::Production, &Platform::Linux, Some("corr".to_string())).unwrap();
    assert_eq!(p.strategy, TransportStrategy::DirectEndpoint);
    assert_eq!(p.target, "10.0.0.1:443");
    assert_eq!(p.correlator, None);
    assert_eq!(p.client_id, None);
    assert_eq!(p.identity, None);
    assert!(p.secure);
}

#[test]
fn corporate_shard_uses_proxy_without_correlator() {
    let c = config("scshard", None, Some("repoA"));
    let p = connect(&c, &Environment::Corporate, &Platform::Linux, Some("corr".to_string())).unwrap();
    assert_eq!(p.strategy, TransportStrategy::ProxyRouted);
    assert_eq!(p.shard_domain, Some("repoA".to_string()));
    assert_eq!(p.target, "scshard");
    assert_eq!(p.client_id, Some("x".to_string()));
    assert_eq!(p.correlator, None);
    assert_eq!(p.logging_context, None);
    assert_eq!(p.identity.unwrap().correlator, Some("corr".to_string()));
}

#[test]
fn other_environment_is_unsupported() {
    let c = config("scshard", None, Some("repoA"));
    let r = connect(&c, &Environment::Other("staging".to_string()), &Platform::Linux, None);
    assert_eq!(r, Err(ConnectionError::EnvironmentUnsupported("staging".to_string())));
}

#[test]
fn selection_matrix_without_endpoint() {
    for platform in PLATFORMS.iter() {
        let mesh = *platform == Platform::Linux;
        let prod = select_strategy(false, &Environment::Production, platform).unwrap();
        let expected = if mesh { TransportStrategy::MeshRouted } else { TransportStrategy::ProxyRouted };
        assert_eq!(prod, expected);
        assert_eq!(select_strategy(false, &Environment::Corporate, platform), Ok(TransportStrategy::ProxyRouted));
        assert_eq!(
            select_strategy(false, &Environment::Other("dev".to_string()), platform),
            Err(ConnectionError::EnvironmentUnsupported("dev".to_string()))
        );
    }
}

#[test]
fn direct_endpoint_unsupported_on_windows() {
    let c = config("t", Some("host:1"), None);
    let r = connect(&c, &Environment::Production, &Platform::Windows, None);
    assert_eq!(r, Err(ConnectionError::PlatformUnsupported(TransportStrategy::DirectEndpoint)));
    for platform in [Platform::Linux, Platform::MacOS, Platform::Other].iter() {
        let p = connect(&c, &Environment::Other("dev".to_string()), platform, None).unwrap();
        assert_eq!(p.strategy, TransportStrategy::DirectEndpoint);
    }
}

#[test]
fn explicit_endpoint_ignores_tier_and_shard() {
    let a = config("tier-a", Some("h:9"), Some("repoA"));
    let mut b = config("tier-b", Some("h:9"), None);
    b.client_id = "y".to_string();
    let ra = connect(&a, &Environment::Production, &Platform::Linux, Some("k1".to_string()));
    let rb = connect(&b, &Environment::Corporate, &Platform::Linux, None);
    assert_eq!(ra, rb);
}

#[test]
fn direct_endpoint_timeouts() {
    let c = config("t", Some("h:9"), None);
    let p = connect(&c, &Environment::Production, &Platform::MacOS, None).unwrap();
    assert_eq!(p.conn_timeout_ms, Some(5000));
    assert_eq!(p.recv_timeout_ms, Some(30000));
}

#[test]
fn mesh_exposes_correlator() {
    let c = config("t", None, Some("repo/x"));
    let p = connect(&c, &Environment::Production, &Platform::Linux, Some("corr".to_string())).unwrap();
    assert_eq!(p.strategy, TransportStrategy::MeshRouted);
    assert_eq!(p.correlator, Some("corr".to_string()));
    assert_eq!(p.logging_context, Some("corr".to_string()));
    assert_eq!(p.shard_domain, Some("repo/x".to_string()));
    let conn = Connection::new(7u32, &p);
    assert_eq!(conn.get_client_corrrelator(), Some("corr".to_string()));
    assert_eq!(*conn.client(), 7);

    let none = connect(&c, &Environment::Production, &Platform::Linux, None).unwrap();
    assert_eq!(none.correlator, None);
}

#[test]
fn proxy_never_exposes_correlator() {
    let c = config("t", None, None);
    for platform in PLATFORMS.iter() {
        let p = connect(&c, &Environment::Corporate, platform, Some("corr".to_string())).unwrap();
        assert_eq!(p.correlator, None);
        let conn = Connection::new((), &p);
        assert_eq!(conn.get_client_corrrelator(), None);
    }
    let p = connect(&c, &Environment::Production, &Platform::Windows, Some("corr".to_string())).unwrap();
    assert_eq!(p.strategy, TransportStrategy::ProxyRouted);
    assert_eq!(p.correlator, None);
    assert_eq!(p.shard_domain, None);
}

#[test]
fn connect_twice_gives_same_settings() {
    let c = config("t", None, Some("repoA"));
    let p1 = connect(&c, &Environment::Production, &Platform::Linux, Some("a".to_string())).unwrap();
    let p2 = connect(&c, &Environment::Production, &Platform::Linux, Some("b".to_string())).unwrap();
    assert_eq!(p1.strategy, p2.strategy);
    assert_eq!(p1.target, p2.target);
    assert_eq!(p1.client_id, p2.client_id);
    assert_eq!(p1.shard_domain, p2.shard_domain);
    assert_eq!(p1.conn_timeout_ms, p2.conn_timeout_ms);
    let p3 = connect(&c, &Environment::Production, &Platform::Linux, Some("a".to_string())).unwrap();
    assert_eq!(p1, p3);
}

#[test]
fn mesh_unsupported_off_linux() {
    let tier = "t".to_string();
    for platform in [Platform::MacOS, Platform::Windows, Platform::Other].iter() {
        let r = TransportParams::from_tier_name_via_sr(platform, "x".to_string(), &tier, &None, None);
        assert_eq!(r, Err(ConnectionError::PlatformUnsupported(TransportStrategy::MeshRouted)));
    }
}

#[test]
fn first_address_picks_first() {
    let hp = "h:1".to_string();
    assert_eq!(first_address(&hp, vec![3u8, 1, 2]), Ok(3));
    assert_eq!(
        first_address::<u8>(&hp, vec![]),
        Err(ConnectionError::AddressResolutionFailed("h:1".to_string()))
    );
}

#[test]
fn args_route_by_host_or_tier() {
    let args = ConnectionArgs {
        client_id: DEFAULT_CLIENT_ID.to_string(),
        tier: DEFAULT_TIER.to_string(),
        host: None,
    };
    let p = args
        .get_connection(Some("repo".to_string()), &Environment::Corporate, &Platform::MacOS, None)
        .unwrap();
    assert_eq!(p.strategy, TransportStrategy::ProxyRouted);
    assert_eq!(p.target, "shardmanager:mononoke.scs");
    assert_eq!(p.client_id, Some("scsc-default-client".to_string()));
    assert_eq!(p.shard_domain, Some("repo".to_string()));

    let with_host = ConnectionArgs { host: Some("h:2".to_string()), ..args };
    let d = with_host
        .get_connection(Some("repo".to_string()), &Environment::Corporate, &Platform::MacOS, None)
        .unwrap();
    assert_eq!(d.strategy, TransportStrategy::DirectEndpoint);
    assert_eq!(d.target, "h:2");
    assert_eq!(d.shard_domain, None);
}
