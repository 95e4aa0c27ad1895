//! Statuses of protocol calls and the bridge's error taxonomy.

use vstd::prelude::*;

verus! {

/// What came back from one call to the remote bus.
#[derive(Clone, Copy, Debug, PartialEq, Eq, Structural)]
pub enum BusReply {
    /// The bus answered with a status code; zero means success.
    Answered(i32),
    /// The call never reached the bus, or its answer never arrived.
    Unreachable,
}

/// Status of one protocol call, whether decided locally or by the bus.
#[derive(Clone, Copy, Debug, PartialEq, Eq, Structural)]
pub enum Status {
    /// The bus accepted the call.
    Success,
    /// The topic lacks its entity or resource name; the bus was not contacted.
    InvalidTarget,
    /// The token is not the one this session registered with.
    Unauthorized,
    /// The identity has no entity name or cannot be put on the wire.
    MalformedIdentity,
    /// A registration is already outstanding on this session.
    AlreadyRegistered,
    /// The session failed earlier and accepts no further calls.
    SessionUnusable,
    /// The bus answered with this non-zero code.
    Rejected(i32),
    /// The bus could not be reached.
    Unreachable,
}

/// The ways in which a bridge session can fail.
#[derive(Clone, Copy, Debug, PartialEq, Eq, Structural)]
pub enum BridgeError {
    /// The host reference could not be turned into a local handle.
    HandleAcquisition,
    /// The handle does not implement the bus interface.
    InterfaceCast,
    /// The bus, or a local check, refused the client registration.
    RegistrationFailure,
    /// An enable or disable call was refused.
    DispatchCallFailure,
    /// The background task could not join the host execution context.
    Attachment,
}

/// The status that a reply of the bus stands for.
pub open spec fn status_of_reply(reply: BusReply) -> Status {
    match reply {
        BusReply::Answered(code) => if code == 0 {
            Status::Success
        } else {
            Status::Rejected(code)
        },
        BusReply::Unreachable => Status::Unreachable,
    }
}

impl Status {
    /// Whether this status reports success.
    pub open spec fn success(self) -> bool {
        self == Status::Success
    }

    /// Whether the bus produced this status, as opposed to a local check.
    pub open spec fn from_bus(self) -> bool {
        match self {
            Status::Success => true,
            Status::Rejected(code) => code != 0,
            Status::Unreachable => true,
            _ => false,
        }
    }

    /// Turns a reply of the bus into a status, unchanged in meaning.
    pub fn from_reply(reply: BusReply) -> (status: Status)
        ensures
            status == status_of_reply(reply),
            status.from_bus(),
            status.success() <==> reply == BusReply::Answered(0),
    {
        match reply {
            BusReply::Answered(code) => {
                if code == 0 {
                    Status::Success
                } else {
                    Status::Rejected(code)
                }
            },
            BusReply::Unreachable => Status::Unreachable,
        }
    }

    /// Tells success from every kind of failure.
    pub fn is_ok(&self) -> (ok: bool)
        ensures
            ok == self.success(),
    {
        match self {
            Status::Success => true,
            _ => false,
        }
    }

    /// The error under which a failed dispatch call is recorded.
    pub fn dispatch_error(&self) -> (error: Option<BridgeError>)
        ensures
            error == (if self.success() {
                None
            } else {
                Some(BridgeError::DispatchCallFailure)
            }),
    {
        if self.is_ok() {
            None
        } else {
            Some(BridgeError::DispatchCallFailure)
        }
    }

    /// The error under which a failed registration is recorded.
    pub fn registration_error(&self) -> (error: Option<BridgeError>)
        ensures
            error == (if self.success() {
                None
            } else {
                Some(BridgeError::RegistrationFailure)
            }),
    {
        if self.is_ok() {
            None
        } else {
            Some(BridgeError::RegistrationFailure)
        }
    }
}

} // verus!
