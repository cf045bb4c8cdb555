//! Planning of connections to the source control service.
//!
//! The library decides how a client reaches the service: through a direct
//! `host:port` endpoint, through the service mesh by tier name, or through the
//! portable reverse proxy. It classifies nothing on its own: the deployment
//! environment, the host platform and the ambient request correlator are
//! handed in as plain values, and the result is a fully described set of
//! transport parameters from which the caller builds the actual client.

mod environment;
mod error;
mod identity;
mod transport;

pub use environment::{Environment, Platform};
pub use error::ConnectionError;
pub use identity::{ClientIdentity, EntryPoint};
pub use transport::{first_address, TransportParams, TransportStrategy, CONN_TIMEOUT_MS, RECV_TIMEOUT_MS};
mod connection;

pub use connection::{
    connect, select_strategy, spec_connect, spec_select_strategy, Connection, ConnectionArgs,
    ConnectionConfig, DEFAULT_CLIENT_ID, DEFAULT_TIER,
};
mod laws;

pub use laws::{
    lemma_connect_repeatable, lemma_correlator_by_strategy, lemma_direct_endpoint_timeouts,
    lemma_explicit_endpoint_overrides, lemma_tier_selection_matrix,
};
mod system_command;

pub use system_command::{
    is_shell_char, needs_shell, new_system_command, shell_char, spec_needs_shell,
    spec_shell_program, SystemCommand,
};
