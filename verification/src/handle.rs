//! Handle typing: from an opaque host reference to a typed proxy of the bus.

use vstd::prelude::*;
use crate::status::BridgeError;

verus! {

/// Where the peer behind a proxy runs. This is informational only.
#[derive(Clone, Copy, Debug, PartialEq, Eq, Structural)]
pub enum Locality {
    /// The peer lives in this process.
    Local,
    /// The peer lives in another process.
    Remote,
}

/// What the transport found out about one host reference.
#[derive(Clone, Copy, Debug, PartialEq, Eq, Structural)]
pub struct HandleProbe {
    /// Whether the reference could be converted into a local handle.
    pub acquired: bool,
    /// Whether the handle stands for a peer in another process.
    pub remote: bool,
    /// Whether the handle implements the interface of the bus.
    pub implements_bus: bool,
}

/// The outcome that typing owes to a probe.
pub open spec fn typing(probe: HandleProbe) -> Result<Locality, BridgeError> {
    if !probe.acquired {
        Err(BridgeError::HandleAcquisition)
    } else if !probe.implements_bus {
        Err(BridgeError::InterfaceCast)
    } else if probe.remote {
        Ok(Locality::Remote)
    } else {
        Ok(Locality::Local)
    }
}

/// A typed proxy of the bus, derived from one host reference. It can be made
/// by `type_handle` only and cannot be copied.
#[derive(Debug)]
pub struct RemoteBusHandle {
    locality: Locality,
}

impl RemoteBusHandle {
    /// Where the peer of this proxy runs.
    pub closed spec fn place(&self) -> Locality {
        self.locality
    }

    /// Where the peer of this proxy runs.
    pub fn locality(&self) -> (locality: Locality)
        ensures
            locality == self.place(),
    {
        self.locality
    }

    /// Whether the peer lives in another process.
    pub fn is_remote(&self) -> (remote: bool)
        ensures
            remote == (self.place() == Locality::Remote),
    {
        match self.locality {
            Locality::Remote => true,
            Locality::Local => false,
        }
    }
}

/// Types a host reference. A reference that could not be converted fails
/// with `HandleAcquisition`, whatever else the probe says; a handle that does
/// not implement the bus interface fails with `InterfaceCast`; any other
/// becomes a proxy that remembers where its peer runs. Nothing is registered.
pub fn type_handle(probe: HandleProbe) -> (typed: Result<RemoteBusHandle, BridgeError>)
    ensures
        typed matches Ok(handle) ==> typing(probe) == Ok::<Locality, BridgeError>(handle.place()),
        typed matches Err(error) ==> typing(probe) == Err::<Locality, BridgeError>(error),
{
    if !probe.acquired {
        Err(BridgeError::HandleAcquisition)
    } else if !probe.implements_bus {
        Err(BridgeError::InterfaceCast)
    } else if probe.remote {
        Ok(RemoteBusHandle { locality: Locality::Remote })
    } else {
        Ok(RemoteBusHandle { locality: Locality::Local })
    }
}

} // verus!
