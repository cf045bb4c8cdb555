use vstd::prelude::*;

verus! {

/// The deployment environment that the process runs in.
#[derive(Clone, Debug, PartialEq, Eq)]
pub enum Environment {
    Production,
    Corporate,
    /// Any other environment, by name.
    Other(String),
}

/// The operating system that the process runs on.
#[derive(Clone, Copy, Debug, PartialEq, Eq, Structural)]
pub enum Platform {
    Linux,
    MacOS,
    Windows,
    Other,
}

impl Platform {
    /// Direct `host:port` connections are available everywhere but on Windows.
    pub open spec fn spec_supports_direct_endpoint(self) -> bool {
        !(self is Windows)
    }

    /// The service mesh is reachable from Linux hosts only.
    pub open spec fn spec_supports_mesh(self) -> bool {
        self is Linux
    }

    pub fn supports_direct_endpoint(&self) -> (r: bool)
        ensures
            r == self.spec_supports_direct_endpoint(),
    {
        match self {
            Platform::Windows => false,
            _ => true,
        }
    }

    pub fn supports_mesh(&self) -> (r: bool)
        ensures
            r == self.spec_supports_mesh(),
    {
        match self {
            Platform::Linux => true,
            _ => false,
        }
    }
}

} // verus!
