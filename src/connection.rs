use vstd::prelude::*;

use crate::environment::{Environment, Platform};
use crate::error::ConnectionError;
use crate::identity::clone_opt_string;
use crate::transport::{TransportParams, TransportStrategy};

verus! {

/// The client id used when none is given.
pub const DEFAULT_CLIENT_ID: &'static str = "scsc-default-client";

/// The tier connected to when none is given.
pub const DEFAULT_TIER: &'static str = "shardmanager:mononoke.scs";

/// What one connection attempt is asked to reach.
#[derive(Clone, Debug, PartialEq, Eq)]
pub struct ConnectionConfig {
    pub client_id: String,
    pub tier: String,
    /// A `host:port` endpoint; when present, `tier` and `shard_domain` are ignored.
    pub explicit_endpoint: Option<String>,
    pub shard_domain: Option<String>,
}

/// The transport for a connection: a direct endpoint when one is given, else
/// one chosen by environment and platform.
pub open spec fn spec_select_strategy(
    explicit_endpoint: bool,
    env: Environment,
    platform: Platform,
) -> Result<TransportStrategy, ConnectionError> {
    if explicit_endpoint {
        if platform.spec_supports_direct_endpoint() {
            Ok(TransportStrategy::DirectEndpoint)
        } else {
            Err(ConnectionError::PlatformUnsupported(TransportStrategy::DirectEndpoint))
        }
    } else {
        match env {
            Environment::Production => if platform.spec_supports_mesh() {
                Ok(TransportStrategy::MeshRouted)
            } else {
                Ok(TransportStrategy::ProxyRouted)
            },
            Environment::Corporate => Ok(TransportStrategy::ProxyRouted),
            Environment::Other(name) => Err(ConnectionError::EnvironmentUnsupported(name)),
        }
    }
}

/// The parameters that `connect` produces: those of the selected strategy.
pub open spec fn spec_connect(
    config: ConnectionConfig,
    env: Environment,
    platform: Platform,
    correlator: Option<String>,
) -> Result<TransportParams, ConnectionError> {
    match spec_select_strategy(config.explicit_endpoint is Some, env, platform) {
        Ok(TransportStrategy::DirectEndpoint) => Ok(
            TransportParams::spec_direct(config.explicit_endpoint->Some_0),
        ),
        Ok(TransportStrategy::MeshRouted) => Ok(
            TransportParams::spec_mesh(config.client_id, config.tier, config.shard_domain, correlator),
        ),
        Ok(TransportStrategy::ProxyRouted) => Ok(
            TransportParams::spec_proxy(config.client_id, config.tier, config.shard_domain, correlator),
        ),
        Err(e) => Err(e),
    }
}

/// Chooses the transport: a direct endpoint when one is given, else the mesh
/// in production on a platform that reaches it, the proxy in production
/// elsewhere and on the corporate network, and nothing in other environments.
pub fn select_strategy(explicit_endpoint: bool, env: &Environment, platform: &Platform) -> (r: Result<
    TransportStrategy,
    ConnectionError,
>)
    ensures
        r == spec_select_strategy(explicit_endpoint, *env, *platform),
{
    if explicit_endpoint {
        if platform.supports_direct_endpoint() {
            Ok(TransportStrategy::DirectEndpoint)
        } else {
            Err(ConnectionError::PlatformUnsupported(TransportStrategy::DirectEndpoint))
        }
    } else {
        match env {
            Environment::Production => if platform.supports_mesh() {
                Ok(TransportStrategy::MeshRouted)
            } else {
                Ok(TransportStrategy::ProxyRouted)
            },
            Environment::Corporate => Ok(TransportStrategy::ProxyRouted),
            Environment::Other(name) => Err(ConnectionError::EnvironmentUnsupported(name.clone())),
        }
    }
}

impl TransportParams {
    /// Parameters of a connection by tier name, through the transport that
    /// the environment and platform call for.
    pub fn from_tier_name(
        env: &Environment,
        platform: &Platform,
        client_id: String,
        tier: &String,
        shard_domain: &Option<String>,
        correlator: Option<String>,
    ) -> (r: Result<Self, ConnectionError>)
        ensures
            r == spec_connect(
                ConnectionConfig {
                    client_id,
                    tier: *tier,
                    explicit_endpoint: None,
                    shard_domain: *shard_domain,
                },
                *env,
                *platform,
                correlator,
            ),
    {
        match select_strategy(false, env, platform) {
            Ok(TransportStrategy::MeshRouted) => Self::from_tier_name_via_sr(
                platform,
                client_id,
                tier,
                shard_domain,
                correlator,
            ),
            Ok(_) => Ok(Self::from_tier_name_via_x2p(client_id, tier, shard_domain, correlator)),
            Err(e) => Err(e),
        }
    }
}

/// Plans a connection for `config` in environment `env` on `platform`, where
/// `correlator` is the correlator of the ambient request context.
pub fn connect(
    config: &ConnectionConfig,
    env: &Environment,
    platform: &Platform,
    correlator: Option<String>,
) -> (r: Result<TransportParams, ConnectionError>)
    ensures
        r == spec_connect(*config, *env, *platform, correlator),
{
    match &config.explicit_endpoint {
        Some(host_port) => TransportParams::from_host_port(platform, host_port),
        None => TransportParams::from_tier_name(
            env,
            platform,
            config.client_id.clone(),
            &config.tier,
            &config.shard_domain,
            correlator,
        ),
    }
}

/// The connection options a user gives: a client id, a tier, and optionally
/// a `host:port` endpoint that takes the tier's place.
#[derive(Clone, Debug, PartialEq, Eq)]
pub struct ConnectionArgs {
    pub client_id: String,
    pub tier: String,
    pub host: Option<String>,
}

impl ConnectionArgs {
    pub open spec fn spec_config(self, repo: Option<String>) -> ConnectionConfig {
        ConnectionConfig {
            client_id: self.client_id,
            tier: self.tier,
            explicit_endpoint: self.host,
            shard_domain: repo,
        }
    }

    /// The configuration of a connection to the shard of `repo`.
    pub fn to_config(&self, repo: Option<String>) -> (r: ConnectionConfig)
        ensures
            r == self.spec_config(repo),
    {
        ConnectionConfig {
            client_id: self.client_id.clone(),
            tier: self.tier.clone(),
            explicit_endpoint: clone_opt_string(&self.host),
            shard_domain: repo,
        }
    }

    /// Plans the connection that these options ask for, routed to the shard
    /// of `repo` when one is given.
    pub fn get_connection(
        &self,
        repo: Option<String>,
        env: &Environment,
        platform: &Platform,
        correlator: Option<String>,
    ) -> (r: Result<TransportParams, ConnectionError>)
        ensures
            r == spec_connect(self.spec_config(repo), *env, *platform, correlator),
    {
        let config = self.to_config(repo);
        connect(&config, env, platform, correlator)
    }
}

/// A connection: the client of the chosen transport and the correlator that
/// was captured when it was planned.
pub struct Connection<C> {
    client: C,
    correlator: Option<String>,
}

impl<C> Connection<C> {
    pub closed spec fn spec_correlator(self) -> Option<String> {
        self.correlator
    }

    pub closed spec fn spec_client(self) -> C {
        self.client
    }

    /// Wraps `client`, built from `params`, into a connection.
    pub fn new(client: C, params: &TransportParams) -> (r: Self)
        ensures
            r.spec_client() == client,
            r.spec_correlator() == params.correlator,
    {
        Connection { client, correlator: clone_opt_string(&params.correlator) }
    }

    /// The client that calls go through.
    pub fn client(&self) -> (r: &C)
        ensures
            *r == self.spec_client(),
    {
        &self.client
    }

    /// The correlator to log beside outgoing requests.
    pub fn get_client_corrrelator(&self) -> (r: Option<String>)
        ensures
            r == self.spec_correlator(),
    {
        clone_opt_string(&self.correlator)
    }
}

} // verus!
