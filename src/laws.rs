use vstd::prelude::*;

use crate::connection::{spec_connect, ConnectionConfig};
use crate::environment::{Environment, Platform};
use crate::error::ConnectionError;
use crate::transport::{TransportParams, TransportStrategy, CONN_TIMEOUT_MS, RECV_TIMEOUT_MS};

verus! {

/// Without an explicit endpoint, every environment and platform lead to
/// exactly one routed transport, or to an error and no parameters: the mesh
/// exactly in production on a mesh platform, the proxy in production elsewhere
/// and on the corporate network, and an unsupported environment otherwise.
pub proof fn lemma_tier_selection_matrix(
    config: ConnectionConfig,
    env: Environment,
    platform: Platform,
    correlator: Option<String>,
)
    requires
        config.explicit_endpoint is None,
    ensures
        spec_connect(config, env, platform, correlator) is Ok <==> !(env is Other),
        match spec_connect(config, env, platform, correlator) {
            Ok(p) => {
                &&& (p.strategy is MeshRouted || p.strategy is ProxyRouted)
                &&& (p.strategy is MeshRouted <==> (env is Production
                    && platform.spec_supports_mesh()))
            },
            Err(e) => e is EnvironmentUnsupported || e is PlatformUnsupported,
        },
{
}

/// With an explicit endpoint the tier, the shard domain, the client id, the
/// environment and the correlator play no part: the same endpoint on the same
/// platform gives the same outcome.
pub proof fn lemma_explicit_endpoint_overrides(
    c1: ConnectionConfig,
    c2: ConnectionConfig,
    env1: Environment,
    env2: Environment,
    platform: Platform,
    k1: Option<String>,
    k2: Option<String>,
)
    requires
        c1.explicit_endpoint is Some,
        c1.explicit_endpoint == c2.explicit_endpoint,
    ensures
        spec_connect(c1, env1, platform, k1) == spec_connect(c2, env2, platform, k2),
{
}

/// A direct endpoint connection always has a 5000 ms connect timeout, a
/// 30000 ms receive timeout and encryption; where the platform has no direct
/// endpoints it fails with that reason.
pub proof fn lemma_direct_endpoint_timeouts(
    config: ConnectionConfig,
    env: Environment,
    platform: Platform,
    correlator: Option<String>,
)
    requires
        config.explicit_endpoint is Some,
    ensures
        match spec_connect(config, env, platform, correlator) {
            Ok(p) => {
                &&& p.strategy is DirectEndpoint
                &&& p.conn_timeout_ms == Some(5000u32)
                &&& p.recv_timeout_ms == Some(30000u32)
                &&& p.secure
                &&& p.correlator is None
            },
            Err(e) => e == ConnectionError::PlatformUnsupported(TransportStrategy::DirectEndpoint),
        },
{
    assert(CONN_TIMEOUT_MS == 5000u32 && RECV_TIMEOUT_MS == 30000u32);
}

/// A mesh connection exposes the ambient correlator, so it has one whenever
/// the context supplied one; a proxy or direct connection never has one.
pub proof fn lemma_correlator_by_strategy(
    config: ConnectionConfig,
    env: Environment,
    platform: Platform,
    correlator: Option<String>,
)
    ensures
        spec_connect(config, env, platform, correlator) matches Ok(p) ==> {
            &&& (p.strategy is MeshRouted ==> p.correlator == correlator)
            &&& (p.strategy is MeshRouted && correlator is Some ==> p.correlator is Some)
            &&& (p.strategy is ProxyRouted ==> p.correlator is None)
            &&& (p.strategy is DirectEndpoint ==> p.correlator is None)
        },
{
}

/// Connecting twice with the same configuration, environment and platform
/// gives the same outcome, and on success the same transport settings
/// (strategy, target, client id, timeouts, encryption, shard domain), whatever
/// the ambient correlator of each attempt.
pub proof fn lemma_connect_repeatable(
    config: ConnectionConfig,
    env: Environment,
    platform: Platform,
    k1: Option<String>,
    k2: Option<String>,
)
    ensures
        spec_connect(config, env, platform, k1) is Ok <==> spec_connect(config, env, platform, k2) is Ok,
        spec_connect(config, env, platform, k1) matches Err(e1) ==> spec_connect(config, env, platform, k2) == Err::<TransportParams, ConnectionError>(e1),
        spec_connect(config, env, platform, k1) matches Ok(p1) ==> (spec_connect(config, env, platform, k2) matches Ok(p2) && p1.settings() == p2.settings()),
{
}

} // verus!
