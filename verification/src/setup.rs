//! The setup phase: what the entry point does between the host's call and
//! the status report that it returns.
//!
//! Setup is a state machine. It opens the session, asks for the registration
//! call, then for one initial subscription call after the other, and writes
//! every outcome into the report. The embedding code makes each call that is
//! asked for and hands back the bus's reply.

use vstd::prelude::*;
use crate::handle::{typing, HandleProbe, Locality};
use crate::identity::{ClientIdentity, IdentityView};
use crate::report::{
    acquisition_line, bytes_text, decimal, failure_line, joined, labelled, locality_line,
    status_text, StatusReport,
};
use crate::session::{
    dispatch_verdict, opened, registration_begin_status, registration_begun,
    registration_concluded, registration_status, DispatchCall, DispatchKind, Phase,
    RegistrationCall, Session,
};
use crate::status::{status_of_reply, BusReply, Status};
use crate::token::ClientToken;
use crate::topic::{TopicDescriptor, TopicView};

verus! {

/// One subscription call of the setup phase, and the label under which its
/// status is reported.
#[derive(Debug)]
pub struct InitialCall {
    pub label: String,
    pub kind: DispatchKind,
    pub topic: TopicDescriptor,
}

/// An initial call, as plain values.
pub struct InitialCallView {
    pub label: Seq<char>,
    pub kind: DispatchKind,
    pub topic: TopicView,
}

impl View for InitialCall {
    type V = InitialCallView;

    open spec fn view(&self) -> InitialCallView {
        InitialCallView { label: self.label@, kind: self.kind, topic: self.topic@ }
    }
}

/// The initial calls, as plain values.
pub open spec fn views_of(calls: Seq<InitialCall>) -> Seq<InitialCallView> {
    Seq::new(calls.len(), |i: int| calls[i]@)
}

/// The message that the encoder produced, if it did.
pub open spec fn bytes_of(message: Result<Vec<u8>, Status>) -> Option<Seq<u8>> {
    match message {
        Ok(bytes) => Some(bytes@),
        Err(_) => None,
    }
}

/// The message of an identity, where it can be framed.
pub open spec fn framed(identity: IdentityView) -> Option<Seq<u8>> {
    if identity.encodable() {
        Some(identity.wire())
    } else {
        None
    }
}

/// The size that is computed for an identity's message, where it can be
/// framed.
pub open spec fn framed_size(identity: IdentityView) -> Option<u64> {
    if identity.encodable() {
        Some(identity.wire().len() as u64)
    } else {
        None
    }
}

/// Where setup stands.
#[derive(Clone, Copy, Debug, PartialEq, Eq, Structural)]
pub enum SetupStage {
    /// The session is typed; the registration was not begun.
    Ready,
    /// Waiting for the reply to the registration call.
    Registering,
    /// Waiting for the reply to the initial call at this index.
    Subscribing(usize),
    /// Nothing is left to do; the report is complete.
    Done,
}

/// What the embedding code is to do next.
#[derive(Debug)]
pub enum SetupAction {
    /// Make this registration call.
    Register(RegistrationCall),
    /// Make this subscription call.
    Dispatch(DispatchCall),
    /// Return the report; start the control loop if the session allows one.
    Finish,
}

/// A setup action, as plain values.
pub enum SetupActionView {
    Register { package_name: Seq<char>, entity: Seq<u8>, token: ClientToken, flags: i32 },
    Dispatch { kind: DispatchKind, topic: TopicView, flags: i32, token: ClientToken },
    Finish,
}

impl View for SetupAction {
    type V = SetupActionView;

    open spec fn view(&self) -> SetupActionView {
        match *self {
            SetupAction::Register(call) => SetupActionView::Register {
                package_name: call.package_name@,
                entity: call.entity@,
                token: call.token,
                flags: call.flags,
            },
            SetupAction::Dispatch(call) => SetupActionView::Dispatch {
                kind: call.kind,
                topic: call.topic@,
                flags: call.flags,
                token: call.token,
            },
            SetupAction::Finish => SetupActionView::Finish,
        }
    }
}

/// The label of the line that reports the registration.
pub open spec fn registration_label() -> Seq<char> {
    "ustatus_registerClient"@
}

/// The lines with which a report opens: an empty line; whether the
/// reference became a handle; for a handle, where its peer runs; then the
/// type of the proxy, or what typing failed with.
pub open spec fn opening_lines(probe: HandleProbe, proxy_type: Seq<char>) -> Seq<Seq<char>> {
    let first = seq![""@, acquisition_line(probe.acquired)];
    let second = if probe.acquired {
        first.push(
            locality_line(
                if probe.remote {
                    Locality::Remote
                } else {
                    Locality::Local
                },
            ),
        )
    } else {
        first
    };
    match typing(probe) {
        Ok(_) => second.push(proxy_type),
        Err(error) => second.push(failure_line(error)),
    }
}

/// The state of setup, as plain values.
pub struct SetupView {
    pub phase: Phase,
    pub lines: Seq<Seq<char>>,
    pub identity: IdentityView,
    pub token: ClientToken,
    pub flags: i32,
    pub calls: Seq<InitialCallView>,
    pub stage: SetupStage,
}

impl SetupView {
    /// Setup as it opens on a probed host reference. A reference that cannot
    /// be typed leaves nothing to do.
    pub open spec fn opened(
        probe: HandleProbe,
        proxy_type: Seq<char>,
        identity: IdentityView,
        token: ClientToken,
        flags: i32,
        calls: Seq<InitialCallView>,
    ) -> SetupView {
        SetupView {
            phase: opened(probe),
            lines: opening_lines(probe, proxy_type),
            identity,
            token,
            flags,
            calls,
            stage: if typing(probe) is Ok {
                SetupStage::Ready
            } else {
                SetupStage::Done
            },
        }
    }

    /// Setup at another stage.
    pub open spec fn at(self, stage: SetupStage) -> SetupView {
        SetupView { stage, ..self }
    }

    /// Setup with one more line in its report.
    pub open spec fn noted(self, line: Seq<char>) -> SetupView {
        SetupView { lines: self.lines.push(line), ..self }
    }

    /// Setup at its end: a session that failed says so in the report.
    pub open spec fn closed_out(self) -> SetupView {
        match self.phase {
            Phase::Failed(error) => self.noted(failure_line(error)).at(SetupStage::Done),
            _ => self.at(SetupStage::Done),
        }
    }

    /// The report lines on the identity's message: its computed size where
    /// there is one; its length and its bytes where it was produced.
    pub open spec fn measured(self, size: Option<u64>, message: Option<Seq<u8>>) -> SetupView {
        let sized = match size {
            Some(n) => self.noted(labelled("uentity computed size"@, decimal(n as nat))),
            None => self,
        };
        match message {
            Some(bytes) => sized.noted(labelled("uentity_size"@, decimal(bytes.len()))).noted(
                labelled("bytes"@, bytes_text(bytes)),
            ),
            None => sized,
        }
    }

    /// The start of the registration, given what the encoder returned: the
    /// registration call, or the end of setup where the attempt is refused.
    pub open spec fn started(self, size: Option<u64>, message: Option<Seq<u8>>) -> (
        SetupView,
        SetupActionView,
    ) {
        if self.stage != SetupStage::Ready {
            (self, SetupActionView::Finish)
        } else {
            let status = registration_begin_status(self.phase, self.identity, message is Some);
            let next = SetupView {
                phase: registration_begun(self.phase, self.identity, self.token, message is Some),
                ..self.measured(size, message)
            };
            if status.success() {
                (
                    next.at(SetupStage::Registering),
                    SetupActionView::Register {
                        package_name: self.identity.package_name,
                        entity: message->0,
                        token: self.token,
                        flags: self.flags,
                    },
                )
            } else {
                (
                    next.noted(labelled(registration_label(), status_text(status))).closed_out(),
                    SetupActionView::Finish,
                )
            }
        }
    }

    /// Goes on with the initial calls at an index. A call that the local
    /// checks refuse is reported with their verdict and passed over; the
    /// first call that they let through is asked for; after the last call
    /// setup is done.
    pub open spec fn subscribe_from(self, index: int) -> (SetupView, SetupActionView)
        decreases self.calls.len() - index,
    {
        if index < 0 || index >= self.calls.len() {
            (self.at(SetupStage::Done), SetupActionView::Finish)
        } else {
            let call = self.calls[index];
            let verdict = dispatch_verdict(self.phase, call.topic, self.token);
            if verdict.success() {
                (
                    self.at(SetupStage::Subscribing(index as usize)),
                    SetupActionView::Dispatch {
                        kind: call.kind,
                        topic: call.topic,
                        flags: self.flags,
                        token: self.token,
                    },
                )
            } else {
                self.noted(labelled(call.label, status_text(verdict))).subscribe_from(index + 1)
            }
        }
    }

    /// What follows from a reply of the bus. The reply to the registration
    /// is reported and decides whether the initial calls are made at all;
    /// the reply to an initial call is reported, whatever it is, and the next
    /// call follows.
    pub open spec fn replied(self, reply: BusReply) -> (SetupView, SetupActionView) {
        match self.stage {
            SetupStage::Registering => {
                let status = registration_status(self.phase, self.token, reply);
                let next = (SetupView {
                    phase: registration_concluded(self.phase, self.token, reply),
                    ..self
                }).noted(labelled(registration_label(), status_text(status)));
                if status.success() {
                    next.subscribe_from(0)
                } else {
                    (next.closed_out(), SetupActionView::Finish)
                }
            },
            SetupStage::Subscribing(index) => if index < self.calls.len() {
                self.noted(
                    labelled(self.calls[index as int].label, status_text(status_of_reply(reply))),
                ).subscribe_from(index + 1)
            } else {
                (self.at(SetupStage::Done), SetupActionView::Finish)
            },
            _ => (self, SetupActionView::Finish),
        }
    }
}

/// The setup phase of one session.
#[derive(Debug)]
pub struct Setup {
    session: Session,
    report: StatusReport,
    identity: ClientIdentity,
    token: ClientToken,
    flags: i32,
    calls: Vec<InitialCall>,
    stage: SetupStage,
}

impl View for Setup {
    type V = SetupView;

    closed spec fn view(&self) -> SetupView {
        SetupView {
            phase: self.session.phase(),
            lines: self.report@,
            identity: self.identity@,
            token: self.token,
            flags: self.flags,
            calls: views_of(self.calls@),
            stage: self.stage,
        }
    }
}

impl Setup {
    /// Opens the session on a probed host reference and begins the report.
    /// `proxy_type` names the type of the proxy for the report; `calls` are
    /// the subscription calls to make once the registration is accepted.
    pub fn open(
        probe: HandleProbe,
        proxy_type: &str,
        identity: ClientIdentity,
        token: ClientToken,
        flags: i32,
        calls: Vec<InitialCall>,
    ) -> (setup: Setup)
        ensures
            setup@ == SetupView::opened(
                probe,
                proxy_type@,
                identity@,
                token,
                flags,
                views_of(calls@),
            ),
    {
        let mut report = StatusReport::new();
        report.note("");
        report.note_acquisition(probe.acquired);
        if probe.acquired {
            report.note_locality(
                if probe.remote {
                    Locality::Remote
                } else {
                    Locality::Local
                },
            );
        }
        let session = Session::open(probe);
        let stage = match session.failure() {
            Some(error) => {
                report.note_failure(error);
                SetupStage::Done
            },
            None => {
                report.note(proxy_type);
                SetupStage::Ready
            },
        };
        assert(report@ =~= opening_lines(probe, proxy_type@));
        Setup { session, report, identity, token, flags, calls, stage }
    }

    /// The session that is being set up.
    pub fn session(&self) -> (session: &Session)
        ensures
            session.phase() == self@.phase,
    {
        &self.session
    }

    /// Where setup stands.
    pub fn stage(&self) -> (stage: SetupStage)
        ensures
            stage == self@.stage,
    {
        self.stage
    }

    /// The report so far, as one text: its lines, separated by line feeds.
    pub fn report_text(&self) -> (text: String)
        ensures
            text@ == joined(self@.lines, seq!['\n']),
    {
        self.report.render()
    }

    /// Ends setup and hands over the session.
    pub fn into_session(self) -> (session: Session)
        ensures
            session.phase() == self@.phase,
    {
        self.session
    }

    fn close_out(&mut self)
        ensures
            final(self)@ == old(self)@.closed_out(),
    {
        match self.session.failure() {
            Some(error) => {
                self.report.note_failure(error);
            },
            None => {},
        }
        self.stage = SetupStage::Done;
    }

    fn measure(&mut self, size: Option<u64>, message: &Result<Vec<u8>, Status>)
        ensures
            final(self)@ == old(self)@.measured(size, bytes_of(*message)),
    {
        match size {
            Some(n) => {
                self.report.note_number("uentity computed size", n);
            },
            None => {},
        }
        match message {
            Ok(bytes) => {
                self.report.note_number("uentity_size", bytes.len() as u64);
                self.report.note_bytes("bytes", bytes.as_slice());
            },
            Err(_) => {},
        }
    }

    fn subscribe_from(&mut self, start: usize) -> (action: SetupAction)
        ensures
            (final(self)@, action@) == old(self)@.subscribe_from(start as int),
    {
        let ghost goal = self@.subscribe_from(start as int);
        let mut index = start;
        while index < self.calls.len()
            invariant
                goal == old(self)@.subscribe_from(start as int),
                self@.subscribe_from(index as int) == goal,
            decreases self.calls@.len() - index,
        {
            let planned = self.session.plan_dispatch(
                self.calls[index].kind,
                &self.calls[index].topic,
                self.flags,
                self.token,
            );
            match planned {
                Ok(call) => {
                    self.stage = SetupStage::Subscribing(index);
                    return SetupAction::Dispatch(call);
                },
                Err(status) => {
                    self.report.note_status(self.calls[index].label.as_str(), status);
                    index = index + 1;
                },
            }
        }
        self.stage = SetupStage::Done;
        SetupAction::Finish
    }

    /// Begins the registration with what the encoder returned for the
    /// identity: the size that it computed, if any, and the message, or its
    /// refusal. The outcome is the one that `SetupView::started` defines.
    pub fn start_with(&mut self, size: Option<u64>, message: Result<Vec<u8>, Status>) -> (action:
        SetupAction)
        ensures
            (final(self)@, action@) == old(self)@.started(size, bytes_of(message)),
    {
        match self.stage {
            SetupStage::Ready => {},
            _ => {
                return SetupAction::Finish;
            },
        }
        self.measure(size, &message);
        let planned = self.session.begin_registration_with(
            &self.identity,
            message,
            self.token,
            self.flags,
        );
        match planned {
            Ok(call) => {
                self.stage = SetupStage::Registering;
                SetupAction::Register(call)
            },
            Err(status) => {
                self.report.note_status("ustatus_registerClient", status);
                self.close_out();
                SetupAction::Finish
            },
        }
    }

    /// Begins the registration: frames the identity and goes on as
    /// `start_with` does. An identity that can be framed is reported with
    /// the length of its `wire` form as its computed size, and with that
    /// form as its message; any other with neither.
    pub fn start(&mut self) -> (action: SetupAction)
        ensures
            (final(self)@, action@) == old(self)@.started(
                framed_size(old(self)@.identity),
                framed(old(self)@.identity),
            ),
    {
        let size = self.identity.encoded_size();
        let message = self.identity.encode();
        self.start_with(size, message)
    }

    /// Takes the bus's reply to the call that was last asked for and says
    /// what to do next, as `SetupView::replied` defines it.
    pub fn step(&mut self, reply: BusReply) -> (action: SetupAction)
        ensures
            (final(self)@, action@) == old(self)@.replied(reply),
    {
        match self.stage {
            SetupStage::Registering => {
                let status = self.session.conclude_registration(self.token, reply);
                self.report.note_status("ustatus_registerClient", status);
                if status.is_ok() {
                    self.subscribe_from(0)
                } else {
                    self.close_out();
                    SetupAction::Finish
                }
            },
            SetupStage::Subscribing(index) => {
                if index < self.calls.len() {
                    let status = Status::from_reply(reply);
                    self.report.note_status(self.calls[index].label.as_str(), status);
                    self.subscribe_from(index + 1)
                } else {
                    self.stage = SetupStage::Done;
                    SetupAction::Finish
                }
            },
            _ => SetupAction::Finish,
        }
    }
}

} // verus!
