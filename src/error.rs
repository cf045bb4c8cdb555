use vstd::prelude::*;

use crate::transport::TransportStrategy;

verus! {

/// Why no connection could be planned or made.
#[derive(Clone, Debug, PartialEq, Eq)]
pub enum ConnectionError {
    /// The `host:port` string of a direct endpoint resolved to no address.
    AddressResolutionFailed(String),
    /// The chosen transport has no implementation on this platform.
    PlatformUnsupported(TransportStrategy),
    /// No transport serves this deployment environment, by its name.
    EnvironmentUnsupported(String),
    /// The client identity could not be rendered into a header.
    SerializationError(String),
    /// The transport's client could not be constructed.
    Transport(String),
}

} // verus!
