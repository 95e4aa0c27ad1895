//! The session: one typed proxy, one registration, and the subscription
//! controller that answers for both.
//!
//! A session decides; it never calls the bus. Each decision yields either a
//! call for the embedding code to make, or the status with which the call
//! failed before it was made. The bus's reply comes back through the
//! matching `conclude_` function.

use vstd::prelude::*;
use crate::handle::{type_handle, typing, HandleProbe, Locality, RemoteBusHandle};
use crate::identity::{ClientIdentity, IdentityView};
use crate::status::{status_of_reply, BridgeError, BusReply, Status};
use crate::token::ClientToken;
use crate::topic::{TopicDescriptor, TopicView};

verus! {

/// How far a session has come.
#[derive(Clone, Copy, Debug, PartialEq, Eq, Structural)]
pub enum Phase {
    /// The proxy is typed; no registration was attempted.
    Typed(Locality),
    /// A registration call with this token is outstanding.
    Registering(Locality, ClientToken),
    /// The bus accepted the registration with this token.
    Registered(Locality, ClientToken),
    /// The session failed and stays unusable.
    Failed(BridgeError),
}

/// The direction of a dispatch call.
#[derive(Clone, Copy, Debug, PartialEq, Eq, Structural)]
pub enum DispatchKind {
    Enable,
    Disable,
}

/// A registration call for the embedding code to make.
#[derive(Debug)]
pub struct RegistrationCall {
    pub package_name: String,
    pub entity: Vec<u8>,
    pub token: ClientToken,
    pub flags: i32,
}

/// An enable or disable call for the embedding code to make.
#[derive(Debug)]
pub struct DispatchCall {
    pub kind: DispatchKind,
    pub topic: TopicDescriptor,
    pub flags: i32,
    pub token: ClientToken,
}

/// Where the peer of the session's proxy runs, while the session has one.
pub open spec fn place_of(phase: Phase) -> Option<Locality> {
    match phase {
        Phase::Typed(locality) => Some(locality),
        Phase::Registering(locality, _) => Some(locality),
        Phase::Registered(locality, _) => Some(locality),
        Phase::Failed(_) => None,
    }
}

/// The phase in which a session opens on a probed host reference.
pub open spec fn opened(probe: HandleProbe) -> Phase {
    match typing(probe) {
        Ok(locality) => Phase::Typed(locality),
        Err(error) => Phase::Failed(error),
    }
}

/// What the local checks say of a registration attempt, before any message
/// is framed: `Success` lets the attempt go on.
pub open spec fn registration_verdict(phase: Phase, identity: IdentityView) -> Status {
    match phase {
        Phase::Failed(_) => Status::SessionUnusable,
        Phase::Registering(_, _) => Status::AlreadyRegistered,
        Phase::Registered(_, _) => Status::AlreadyRegistered,
        Phase::Typed(_) => if identity.valid() && identity.encodable() {
            Status::Success
        } else {
            Status::MalformedIdentity
        },
    }
}

/// The status of a registration attempt whose identity was framed, or was
/// not.
pub open spec fn registration_begin_status(
    phase: Phase,
    identity: IdentityView,
    framed: bool,
) -> Status {
    let verdict = registration_verdict(phase, identity);
    if verdict.success() && !framed {
        Status::MalformedIdentity
    } else {
        verdict
    }
}

/// The phase after a registration attempt. A fresh session goes on to wait
/// for the bus, or fails for good; any other is left as it is.
pub open spec fn registration_begun(
    phase: Phase,
    identity: IdentityView,
    token: ClientToken,
    framed: bool,
) -> Phase {
    match phase {
        Phase::Typed(locality) => if registration_begin_status(phase, identity, framed).success() {
            Phase::Registering(locality, token)
        } else {
            Phase::Failed(BridgeError::RegistrationFailure)
        },
        _ => phase,
    }
}

/// The status with which a registration concludes on the bus's reply.
pub open spec fn registration_status(phase: Phase, token: ClientToken, reply: BusReply) -> Status {
    match phase {
        Phase::Registering(_, awaited) => if awaited == token {
            status_of_reply(reply)
        } else {
            Status::Unauthorized
        },
        Phase::Registered(_, _) => Status::AlreadyRegistered,
        Phase::Typed(_) => Status::Unauthorized,
        Phase::Failed(_) => Status::SessionUnusable,
    }
}

/// The phase after the bus replied to a registration. Only the outstanding
/// registration moves the session: to `Registered` on success, else to
/// failure for good.
pub open spec fn registration_concluded(phase: Phase, token: ClientToken, reply: BusReply) -> Phase {
    match phase {
        Phase::Registering(locality, awaited) => if awaited != token {
            phase
        } else if status_of_reply(reply).success() {
            Phase::Registered(locality, token)
        } else {
            Phase::Failed(BridgeError::RegistrationFailure)
        },
        _ => phase,
    }
}

/// What the local checks say of a dispatch call: `Success` lets the call go
/// to the bus. The target is checked first, then the token against the one
/// that the session registered with.
pub open spec fn dispatch_verdict(phase: Phase, topic: TopicView, token: ClientToken) -> Status {
    if !topic.dispatchable() {
        Status::InvalidTarget
    } else {
        match phase {
            Phase::Registered(_, registered) => if registered == token {
                Status::Success
            } else {
                Status::Unauthorized
            },
            Phase::Failed(_) => Status::SessionUnusable,
            _ => Status::Unauthorized,
        }
    }
}

/// The status of a whole dispatch call: the local verdict where that refuses
/// the call, else whatever the bus replied.
pub open spec fn dispatch_outcome(
    phase: Phase,
    topic: TopicView,
    token: ClientToken,
    reply: BusReply,
) -> Status {
    let verdict = dispatch_verdict(phase, topic, token);
    if verdict.success() {
        status_of_reply(reply)
    } else {
        verdict
    }
}

#[derive(Clone, Copy, Debug)]
enum Stage {
    Typed,
    Registering(ClientToken),
    Registered(ClientToken),
    Failed(BridgeError),
}

/// One bridge session. Its proxy is set when the session opens and never
/// again; its token is the one of its single registration.
#[derive(Debug)]
pub struct Session {
    handle: Option<RemoteBusHandle>,
    stage: Stage,
}

impl Session {
    /// How far the session has come.
    pub closed spec fn phase(&self) -> Phase {
        match (self.handle, self.stage) {
            (_, Stage::Failed(error)) => Phase::Failed(error),
            (None, _) => Phase::Failed(BridgeError::HandleAcquisition),
            (Some(handle), Stage::Typed) => Phase::Typed(handle.place()),
            (Some(handle), Stage::Registering(token)) => Phase::Registering(handle.place(), token),
            (Some(handle), Stage::Registered(token)) => Phase::Registered(handle.place(), token),
        }
    }

    /// Opens a session on a probed host reference. A reference that cannot
    /// be typed leaves a failed session, on which nothing can be registered.
    pub fn open(probe: HandleProbe) -> (session: Session)
        ensures
            session.phase() == opened(probe),
    {
        match type_handle(probe) {
            Ok(handle) => Session { handle: Some(handle), stage: Stage::Typed },
            Err(error) => Session { handle: None, stage: Stage::Failed(error) },
        }
    }

    /// The session's phase.
    pub fn current_phase(&self) -> (phase: Phase)
        ensures
            phase == self.phase(),
    {
        match (&self.handle, self.stage) {
            (_, Stage::Failed(error)) => Phase::Failed(error),
            (None, _) => Phase::Failed(BridgeError::HandleAcquisition),
            (Some(handle), Stage::Typed) => Phase::Typed(handle.locality()),
            (Some(handle), Stage::Registering(token)) => Phase::Registering(
                handle.locality(),
                token,
            ),
            (Some(handle), Stage::Registered(token)) => Phase::Registered(handle.locality(), token),
        }
    }

    /// The error that the session failed with, if it did.
    pub fn failure(&self) -> (error: Option<BridgeError>)
        ensures
            error == (match self.phase() {
                Phase::Failed(e) => Some(e),
                _ => None,
            }),
    {
        match self.current_phase() {
            Phase::Failed(error) => Some(error),
            _ => None,
        }
    }

    /// Where the peer of the session's proxy runs, while there is a proxy.
    pub fn locality(&self) -> (locality: Option<Locality>)
        ensures
            locality == place_of(self.phase()),
    {
        match self.current_phase() {
            Phase::Typed(locality) => Some(locality),
            Phase::Registering(locality, _) => Some(locality),
            Phase::Registered(locality, _) => Some(locality),
            Phase::Failed(_) => None,
        }
    }

    /// The token of the accepted registration, if there is one.
    pub fn token(&self) -> (token: Option<ClientToken>)
        ensures
            token == (match self.phase() {
                Phase::Registered(_, t) => Some(t),
                _ => None,
            }),
    {
        match self.current_phase() {
            Phase::Registered(_, token) => Some(token),
            _ => None,
        }
    }

    /// Whether the bus accepted this session's registration.
    pub fn is_registered(&self) -> (registered: bool)
        ensures
            registered == (self.phase() is Registered),
    {
        match self.current_phase() {
            Phase::Registered(_, _) => true,
            _ => false,
        }
    }

    /// Begins a registration with an identity whose message the encoder has
    /// already produced, or refused. On a fresh session with a sound
    /// identity and a message, the call is returned and the session waits
    /// for the reply; with an unsound identity or without a message the
    /// session fails for good. A session past its first attempt refuses and
    /// stays as it is.
    pub fn begin_registration_with(
        &mut self,
        identity: &ClientIdentity,
        message: Result<Vec<u8>, Status>,
        token: ClientToken,
        flags: i32,
    ) -> (call: Result<RegistrationCall, Status>)
        ensures
            final(self).phase() == registration_begun(
                old(self).phase(),
                identity@,
                token,
                message is Ok,
            ),
            match call {
                Ok(c) => registration_begin_status(
                    old(self).phase(),
                    identity@,
                    message is Ok,
                ).success() && c.package_name@ == identity@.package_name && message == Ok::<
                    Vec<u8>,
                    Status,
                >(c.entity) && c.token == token && c.flags == flags,
                Err(status) => !status.success() && status == registration_begin_status(
                    old(self).phase(),
                    identity@,
                    message is Ok,
                ),
            },
    {
        match self.current_phase() {
            Phase::Failed(_) => Err(Status::SessionUnusable),
            Phase::Registering(_, _) => Err(Status::AlreadyRegistered),
            Phase::Registered(_, _) => Err(Status::AlreadyRegistered),
            Phase::Typed(_) => {
                if !identity.is_valid() || !identity.is_encodable() {
                    self.stage = Stage::Failed(BridgeError::RegistrationFailure);
                    return Err(Status::MalformedIdentity);
                }
                match message {
                    Ok(entity) => {
                        self.stage = Stage::Registering(token);
                        Ok(
                            RegistrationCall {
                                package_name: identity.package_name().clone(),
                                entity,
                                token,
                                flags,
                            },
                        )
                    },
                    Err(_) => {
                        self.stage = Stage::Failed(BridgeError::RegistrationFailure);
                        Err(Status::MalformedIdentity)
                    },
                }
            },
        }
    }

    /// Begins the session's registration: frames the identity and decides as
    /// `begin_registration_with` does. The call is returned exactly when the
    /// local checks pass; it carries the identity's `wire` form. An attempt
    /// that they refuse fails with their verdict.
    pub fn begin_registration(
        &mut self,
        identity: &ClientIdentity,
        token: ClientToken,
        flags: i32,
    ) -> (call: Result<RegistrationCall, Status>)
        ensures
            call is Ok <==> registration_verdict(old(self).phase(), identity@).success(),
            final(self).phase() == registration_begun(
                old(self).phase(),
                identity@,
                token,
                identity@.encodable(),
            ),
            match call {
                Ok(c) => c.package_name@ == identity@.package_name && c.entity@
                    == identity@.wire() && c.token == token && c.flags == flags,
                Err(status) => status == registration_verdict(old(self).phase(), identity@),
            },
    {
        let message = identity.encode();
        self.begin_registration_with(identity, message, token, flags)
    }

    /// Concludes the outstanding registration on the bus's reply. A success
    /// arms the session; any other reply fails it for good. A reply that no
    /// outstanding registration with this token awaits changes nothing.
    pub fn conclude_registration(&mut self, token: ClientToken, reply: BusReply) -> (status: Status)
        ensures
            status == registration_status(old(self).phase(), token, reply),
            final(self).phase() == registration_concluded(old(self).phase(), token, reply),
    {
        match self.current_phase() {
            Phase::Registering(_, awaited) => {
                if !awaited.matches(&token) {
                    return Status::Unauthorized;
                }
                let status = Status::from_reply(reply);
                if status.is_ok() {
                    self.stage = Stage::Registered(token);
                } else {
                    self.stage = Stage::Failed(BridgeError::RegistrationFailure);
                }
                status
            },
            Phase::Registered(_, _) => Status::AlreadyRegistered,
            Phase::Typed(_) => Status::Unauthorized,
            Phase::Failed(_) => Status::SessionUnusable,
        }
    }

    /// Decides on one dispatch call. A topic that lacks its entity or its
    /// resource is refused as an invalid target; a token other than the
    /// registered one is refused as unauthorized. Any other call is returned
    /// for the bus, unchanged. The session stays as it is.
    pub fn plan_dispatch(
        &self,
        kind: DispatchKind,
        topic: &TopicDescriptor,
        flags: i32,
        token: ClientToken,
    ) -> (call: Result<DispatchCall, Status>)
        ensures
            match call {
                Ok(c) => dispatch_verdict(self.phase(), topic@, token).success() && c.kind == kind
                    && c.topic@ == topic@ && c.flags == flags && c.token == token,
                Err(status) => !status.success() && status == dispatch_verdict(
                    self.phase(),
                    topic@,
                    token,
                ),
            },
    {
        if !topic.is_dispatchable() {
            return Err(Status::InvalidTarget);
        }
        match self.current_phase() {
            Phase::Registered(_, registered) => {
                if registered.matches(&token) {
                    Ok(DispatchCall { kind, topic: topic.duplicate(), flags, token })
                } else {
                    Err(Status::Unauthorized)
                }
            },
            Phase::Failed(_) => Err(Status::SessionUnusable),
            _ => Err(Status::Unauthorized),
        }
    }

    /// Decides on a call that switches dispatching on for a topic.
    pub fn enable_dispatching(&self, topic: &TopicDescriptor, flags: i32, token: ClientToken) -> (call:
        Result<DispatchCall, Status>)
        ensures
            match call {
                Ok(c) => dispatch_verdict(self.phase(), topic@, token).success() && c.kind
                    == DispatchKind::Enable && c.topic@ == topic@ && c.flags == flags && c.token
                    == token,
                Err(status) => !status.success() && status == dispatch_verdict(
                    self.phase(),
                    topic@,
                    token,
                ),
            },
    {
        self.plan_dispatch(DispatchKind::Enable, topic, flags, token)
    }

    /// Decides on a call that switches dispatching off for a topic. Whether
    /// the topic was ever switched on plays no part.
    pub fn disable_dispatching(&self, topic: &TopicDescriptor, flags: i32, token: ClientToken) -> (call:
        Result<DispatchCall, Status>)
        ensures
            match call {
                Ok(c) => dispatch_verdict(self.phase(), topic@, token).success() && c.kind
                    == DispatchKind::Disable && c.topic@ == topic@ && c.flags == flags && c.token
                    == token,
                Err(status) => !status.success() && status == dispatch_verdict(
                    self.phase(),
                    topic@,
                    token,
                ),
            },
    {
        self.plan_dispatch(DispatchKind::Disable, topic, flags, token)
    }

    /// The status of a dispatch call that went to the bus: the bus's own.
    pub fn conclude_dispatch(&self, call: &DispatchCall, reply: BusReply) -> (status: Status)
        ensures
            status == status_of_reply(reply),
            dispatch_verdict(self.phase(), call.topic@, call.token).success() ==> status
                == dispatch_outcome(self.phase(), call.topic@, call.token, reply),
    {
        Status::from_reply(reply)
    }
}

} // verus!
