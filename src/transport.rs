use vstd::prelude::*;

use crate::environment::Platform;
use crate::error::ConnectionError;
use crate::identity::{clone_opt_string, ClientIdentity, EntryPoint};

verus! {

/// Connect timeout of a direct endpoint connection, in milliseconds.
pub const CONN_TIMEOUT_MS: u32 = 5000;

/// Receive timeout of a direct endpoint connection, in milliseconds.
pub const RECV_TIMEOUT_MS: u32 = 30000;

/// The one transport that a connection goes through.
#[derive(Clone, Copy, Debug, PartialEq, Eq, Structural)]
pub enum TransportStrategy {
    /// A fixed `host:port` endpoint.
    DirectEndpoint,
    /// The service mesh, by tier name.
    MeshRouted,
    /// The reverse proxy, by tier name.
    ProxyRouted,
}

/// Everything that the client of the chosen transport is built from.
#[derive(Clone, Debug, PartialEq, Eq)]
pub struct TransportParams {
    pub strategy: TransportStrategy,
    /// The `host:port` string of a direct endpoint, else the tier name.
    pub target: String,
    /// The client id sent for quota attribution and logging.
    pub client_id: Option<String>,
    pub conn_timeout_ms: Option<u32>,
    pub recv_timeout_ms: Option<u32>,
    /// Whether transport-level encryption is requested explicitly.
    pub secure: bool,
    /// The identity rendered into a persistent header of every call.
    pub identity: Option<ClientIdentity>,
    /// The logging context of the client parameters.
    pub logging_context: Option<String>,
    /// The shard domain that requests are routed by, before encoding.
    pub shard_domain: Option<String>,
    /// The correlator that the connection exposes.
    pub correlator: Option<String>,
}

impl TransportParams {
    pub open spec fn spec_direct(host_port: String) -> TransportParams {
        TransportParams {
            strategy: TransportStrategy::DirectEndpoint,
            target: host_port,
            client_id: None,
            conn_timeout_ms: Some(CONN_TIMEOUT_MS),
            recv_timeout_ms: Some(RECV_TIMEOUT_MS),
            secure: true,
            identity: None,
            logging_context: None,
            shard_domain: None,
            correlator: None,
        }
    }

    pub open spec fn spec_mesh(
        client_id: String,
        tier: String,
        shard_domain: Option<String>,
        correlator: Option<String>,
    ) -> TransportParams {
        TransportParams {
            strategy: TransportStrategy::MeshRouted,
            target: tier,
            client_id: Some(client_id),
            conn_timeout_ms: None,
            recv_timeout_ms: None,
            secure: false,
            identity: Some(ClientIdentity::spec_new(EntryPoint::ScsClient, correlator)),
            logging_context: correlator,
            shard_domain,
            correlator,
        }
    }

    /// Unlike the mesh, the proxy transport carries the correlator in the
    /// identity header only: the connection exposes none.
    pub open spec fn spec_proxy(
        client_id: String,
        tier: String,
        shard_domain: Option<String>,
        correlator: Option<String>,
    ) -> TransportParams {
        TransportParams {
            strategy: TransportStrategy::ProxyRouted,
            target: tier,
            client_id: Some(client_id),
            conn_timeout_ms: None,
            recv_timeout_ms: None,
            secure: false,
            identity: Some(ClientIdentity::spec_new(EntryPoint::ScsClient, correlator)),
            logging_context: None,
            shard_domain,
            correlator: None,
        }
    }

    /// The parameters that do not depend on the ambient correlator.
    pub open spec fn settings(self) -> (TransportStrategy, String, Option<String>, Option<u32>, Option<u32>, bool, Option<String>) {
        (
            self.strategy,
            self.target,
            self.client_id,
            self.conn_timeout_ms,
            self.recv_timeout_ms,
            self.secure,
            self.shard_domain,
        )
    }
}

} // verus!

verus! {

impl TransportParams {
    /// Parameters of a direct connection to `host_port`; the platform must
    /// support direct endpoints.
    pub fn from_host_port(platform: &Platform, host_port: &String) -> (r: Result<Self, ConnectionError>)
        ensures
            platform.spec_supports_direct_endpoint() ==> r == Ok::<Self, ConnectionError>(Self::spec_direct(*host_port)),
            !platform.spec_supports_direct_endpoint() ==> r == Err::<Self, ConnectionError>(
                ConnectionError::PlatformUnsupported(TransportStrategy::DirectEndpoint),
            ),
    {
        if !platform.supports_direct_endpoint() {
            return Err(ConnectionError::PlatformUnsupported(TransportStrategy::DirectEndpoint));
        }
        Ok(TransportParams {
            strategy: TransportStrategy::DirectEndpoint,
            target: host_port.clone(),
            client_id: None,
            conn_timeout_ms: Some(CONN_TIMEOUT_MS),
            recv_timeout_ms: Some(RECV_TIMEOUT_MS),
            secure: true,
            identity: None,
            logging_context: None,
            shard_domain: None,
            correlator: None,
        })
    }

    /// Parameters of a connection by tier name through the service mesh;
    /// the platform must reach the mesh. The ambient correlator becomes the
    /// logging context and the connection's correlator.
    pub fn from_tier_name_via_sr(
        platform: &Platform,
        client_id: String,
        tier: &String,
        shard_domain: &Option<String>,
        correlator: Option<String>,
    ) -> (r: Result<Self, ConnectionError>)
        ensures
            platform.spec_supports_mesh() ==> r == Ok::<Self, ConnectionError>(
                Self::spec_mesh(client_id, *tier, *shard_domain, correlator),
            ),
            !platform.spec_supports_mesh() ==> r == Err::<Self, ConnectionError>(
                ConnectionError::PlatformUnsupported(TransportStrategy::MeshRouted),
            ),
    {
        if !platform.supports_mesh() {
            return Err(ConnectionError::PlatformUnsupported(TransportStrategy::MeshRouted));
        }
        let identity = ClientIdentity::new_with_entry_point(EntryPoint::ScsClient, clone_opt_string(&correlator));
        let logging_context = identity.correlator();
        Ok(TransportParams {
            strategy: TransportStrategy::MeshRouted,
            target: tier.clone(),
            client_id: Some(client_id),
            conn_timeout_ms: None,
            recv_timeout_ms: None,
            secure: false,
            identity: Some(identity),
            logging_context,
            shard_domain: clone_opt_string(shard_domain),
            correlator,
        })
    }

    /// Parameters of a connection by tier name through the reverse proxy,
    /// which every platform reaches.
    pub fn from_tier_name_via_x2p(
        client_id: String,
        tier: &String,
        shard_domain: &Option<String>,
        correlator: Option<String>,
    ) -> (r: Self)
        ensures
            r == Self::spec_proxy(client_id, *tier, *shard_domain, correlator),
    {
        TransportParams {
            strategy: TransportStrategy::ProxyRouted,
            target: tier.clone(),
            client_id: Some(client_id),
            conn_timeout_ms: None,
            recv_timeout_ms: None,
            secure: false,
            identity: Some(ClientIdentity::new_with_entry_point(EntryPoint::ScsClient, correlator)),
            logging_context: None,
            shard_domain: clone_opt_string(shard_domain),
            correlator: None,
        }
    }
}

/// The first of the addresses that `host_port` resolved to; none is an error.
pub fn first_address<A>(host_port: &String, addrs: Vec<A>) -> (r: Result<A, ConnectionError>)
    ensures
        addrs@.len() > 0 ==> r == Ok::<A, ConnectionError>(addrs@[0]),
        addrs@.len() == 0 ==> r == Err::<A, ConnectionError>(
            ConnectionError::AddressResolutionFailed(*host_port),
        ),
{
    let mut addrs = addrs;
    if addrs.len() == 0 {
        Err(ConnectionError::AddressResolutionFailed(host_port.clone()))
    } else {
        Ok(addrs.remove(0))
    }
}

} // verus!
