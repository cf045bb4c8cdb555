use vstd::prelude::*;

verus! {

/// The kind of client that a request comes from.
#[derive(Clone, Copy, Debug, PartialEq, Eq, Structural)]
pub enum EntryPoint {
    ScsClient,
}

/// Who is calling: the entry point tag and, when the ambient request context
/// carries one, the correlator that joins client and server logs.
#[derive(Clone, Debug, PartialEq, Eq)]
pub struct ClientIdentity {
    pub entry_point: EntryPoint,
    pub correlator: Option<String>,
}

/// Copies an optional string; the copy is equal to it.
pub(crate) fn clone_opt_string(o: &Option<String>) -> (r: Option<String>)
    ensures
        r == *o,
{
    match o {
        Some(s) => Some(s.clone()),
        None => None,
    }
}

impl ClientIdentity {
    pub open spec fn spec_new(entry_point: EntryPoint, correlator: Option<String>) -> ClientIdentity {
        ClientIdentity { entry_point, correlator }
    }

    /// The identity of a client of the given kind, under the ambient
    /// correlator `correlator`.
    pub fn new_with_entry_point(entry_point: EntryPoint, correlator: Option<String>) -> (r: Self)
        ensures
            r == Self::spec_new(entry_point, correlator),
    {
        ClientIdentity { entry_point, correlator }
    }

    /// The correlator of this identity.
    pub fn correlator(&self) -> (r: Option<String>)
        ensures
            r == self.correlator,
    {
        clone_opt_string(&self.correlator)
    }
}

} // verus!
