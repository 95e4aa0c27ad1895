//! The control loop: the background task that re-asserts the dispatch state
//! of every tracked topic at a fixed interval.
//!
//! The loop is a state machine. The embedding task attaches to its host,
//! makes the calls and sleeps; after each of these it hands the loop the
//! event that came of it and is told what to do next.

use vstd::prelude::*;
use crate::session::{DispatchCall, DispatchKind, Phase, Session};
use crate::status::{status_of_reply, BridgeError, BusReply, Status};
use crate::token::ClientToken;
use crate::topic::{TopicDescriptor, TopicView};

verus! {

/// Where the loop stands.
#[derive(Clone, Copy, Debug, PartialEq, Eq, Structural)]
pub enum LoopPhase {
    /// Made, not yet spawned.
    Idle,
    /// Spawned; joining the host execution context.
    Attaching,
    /// Waiting for the reply to the enable call of the topic at this index.
    Enabling(usize),
    /// Waiting for the reply to the disable call of the topic at this index.
    Disabling(usize),
    /// Suspended until the interval has passed.
    Sleeping,
    /// Stopped because the task could not join the host execution context.
    Failed,
    /// Stopped on request.
    Cancelled,
}

/// What happened to the embedding task since the last step.
#[derive(Clone, Copy, Debug, PartialEq, Eq, Structural)]
pub enum LoopEvent {
    /// The task was spawned.
    Spawned,
    /// The task joined the host execution context.
    Attached,
    /// The task could not join the host execution context.
    AttachFailed,
    /// The bus replied to the call that was last issued.
    Replied(BusReply),
    /// The interval has passed.
    Woke,
}

/// What the embedding task is to do next.
#[derive(Debug)]
pub enum LoopAction {
    /// Join the host execution context.
    Attach,
    /// Make this call for the tracked topic at this index.
    Dispatch { index: usize, call: DispatchCall },
    /// Yield for this many milliseconds.
    Sleep(u64),
    /// End the task and report this error.
    Halt(BridgeError),
    /// End the task; it was asked to stop.
    Finish,
    /// Nothing: the event was not one that the loop awaits.
    Nothing,
}

/// An action, as plain values.
pub enum ActionView {
    Attach,
    Dispatch { kind: DispatchKind, index: int, topic: TopicView, flags: i32, token: ClientToken },
    Sleep(u64),
    Halt(BridgeError),
    Finish,
    Nothing,
}

impl View for LoopAction {
    type V = ActionView;

    open spec fn view(&self) -> ActionView {
        match *self {
            LoopAction::Attach => ActionView::Attach,
            LoopAction::Dispatch { index, call } => ActionView::Dispatch {
                kind: call.kind,
                index: index as int,
                topic: call.topic@,
                flags: call.flags,
                token: call.token,
            },
            LoopAction::Sleep(ms) => ActionView::Sleep(ms),
            LoopAction::Halt(error) => ActionView::Halt(error),
            LoopAction::Finish => ActionView::Finish,
            LoopAction::Nothing => ActionView::Nothing,
        }
    }
}

/// One more, up to the largest count that can be held.
pub open spec fn counted(count: u64) -> u64 {
    if count < u64::MAX {
        (count + 1) as u64
    } else {
        count
    }
}

/// The state of a control loop, as plain values.
pub struct LoopView {
    pub phase: LoopPhase,
    pub topics: Seq<TopicView>,
    pub token: ClientToken,
    pub flags: i32,
    pub interval_ms: u64,
    pub iterations: u64,
    pub failed_calls: u64,
    pub stop_requested: bool,
}

impl LoopView {
    /// The topics can be counted, every tracked topic can be dispatched, and
    /// a call that is awaited is the call of a tracked topic.
    pub open spec fn wf(self) -> bool {
        &&& self.topics.len() <= usize::MAX
        &&& forall|i: int| 0 <= i < self.topics.len() ==> (#[trigger] self.topics[i]).dispatchable()
        &&& match self.phase {
            LoopPhase::Enabling(i) => i < self.topics.len(),
            LoopPhase::Disabling(i) => i < self.topics.len(),
            _ => true,
        }
    }

    /// The loop in another phase.
    pub open spec fn at(self, phase: LoopPhase) -> LoopView {
        LoopView { phase, ..self }
    }

    /// The call of the given kind for the topic at an index.
    pub open spec fn call(self, kind: DispatchKind, index: int) -> ActionView {
        ActionView::Dispatch {
            kind,
            index,
            topic: self.topics[index],
            flags: self.flags,
            token: self.token,
        }
    }

    /// The loop after it has taken note of a reply: a failure is counted and
    /// has no other effect.
    pub open spec fn recorded(self, reply: BusReply) -> LoopView {
        if status_of_reply(reply).success() {
            self
        } else {
            LoopView { failed_calls: counted(self.failed_calls), ..self }
        }
    }

    /// Goes on with the disable pass at an index: the call of the topic
    /// there, or the sleep that ends the iteration once the pass is through.
    pub open spec fn proceed_disabling(self, index: int) -> (LoopView, ActionView) {
        if 0 <= index < self.topics.len() {
            (self.at(LoopPhase::Disabling(index as usize)), self.call(DispatchKind::Disable, index))
        } else {
            (self.at(LoopPhase::Sleeping), ActionView::Sleep(self.interval_ms))
        }
    }

    /// Goes on with the enable pass at an index: the call of the topic
    /// there, or the start of the disable pass once the pass is through.
    pub open spec fn proceed_enabling(self, index: int) -> (LoopView, ActionView) {
        if 0 <= index < self.topics.len() {
            (self.at(LoopPhase::Enabling(index as usize)), self.call(DispatchKind::Enable, index))
        } else {
            self.proceed_disabling(0)
        }
    }

    /// The top of an iteration: stop if asked to, else start the enable
    /// pass.
    pub open spec fn begin_iteration(self) -> (LoopView, ActionView) {
        if self.stop_requested {
            (self.at(LoopPhase::Cancelled), ActionView::Finish)
        } else {
            self.proceed_enabling(0)
        }
    }

    /// The loop's transition function: the state and the action that follow
    /// from a state and an event.
    pub open spec fn step(self, event: LoopEvent) -> (LoopView, ActionView) {
        match (self.phase, event) {
            (LoopPhase::Idle, LoopEvent::Spawned) => (
                self.at(LoopPhase::Attaching),
                ActionView::Attach,
            ),
            (LoopPhase::Attaching, LoopEvent::Attached) => self.begin_iteration(),
            (LoopPhase::Attaching, LoopEvent::AttachFailed) => (
                self.at(LoopPhase::Failed),
                ActionView::Halt(BridgeError::Attachment),
            ),
            (LoopPhase::Enabling(i), LoopEvent::Replied(reply)) => self.recorded(
                reply,
            ).proceed_enabling(i + 1),
            (LoopPhase::Disabling(i), LoopEvent::Replied(reply)) => self.recorded(
                reply,
            ).proceed_disabling(i + 1),
            (LoopPhase::Sleeping, LoopEvent::Woke) => (LoopView {
                iterations: counted(self.iterations),
                ..self
            }).begin_iteration(),
            _ => (self, ActionView::Nothing),
        }
    }
}

/// The state that a loop ends in and the actions that it asks for, one per
/// event, along a sequence of events.
pub open spec fn run(state: LoopView, events: Seq<LoopEvent>) -> (LoopView, Seq<ActionView>)
    decreases events.len(),
{
    if events.len() == 0 {
        (state, Seq::empty())
    } else {
        let (next, action) = state.step(events[0]);
        let (last, actions) = run(next, events.drop_first());
        (last, seq![action] + actions)
    }
}

/// The actions of one full iteration: the enable call of every tracked
/// topic in order, then the disable call of every tracked topic in order,
/// then the sleep.
pub open spec fn iteration_actions(state: LoopView) -> Seq<ActionView> {
    let n = state.topics.len() as int;
    Seq::new(
        (2 * n + 1) as nat,
        |j: int|
            if j < n {
                state.call(DispatchKind::Enable, j)
            } else if j < 2 * n {
                state.call(DispatchKind::Disable, j - n)
            } else {
                ActionView::Sleep(state.interval_ms)
            },
    )
}

/// What tracking a topic answers: only a loop that was not yet spawned takes
/// topics, and only topics that can be dispatched.
pub open spec fn track_status(state: LoopView, topic: TopicView) -> Status {
    if !topic.dispatchable() {
        Status::InvalidTarget
    } else if state.phase != LoopPhase::Idle {
        Status::SessionUnusable
    } else {
        Status::Success
    }
}

/// The loop that a session in the given phase may start, or the error that
/// forbids it: only an accepted registration starts a loop.
pub open spec fn loop_for(phase: Phase, flags: i32, interval_ms: u64) -> Result<
    LoopView,
    BridgeError,
> {
    match phase {
        Phase::Registered(_, token) => Ok(
            LoopView {
                phase: LoopPhase::Idle,
                topics: Seq::empty(),
                token,
                flags,
                interval_ms,
                iterations: 0,
                failed_calls: 0,
                stop_requested: false,
            },
        ),
        Phase::Failed(error) => Err(error),
        _ => Err(BridgeError::RegistrationFailure),
    }
}

/// The control loop of one registered session.
#[derive(Debug)]
pub struct ControlLoop {
    phase: LoopPhase,
    topics: Vec<TopicDescriptor>,
    token: ClientToken,
    flags: i32,
    interval_ms: u64,
    iterations: u64,
    failed_calls: u64,
    stop_requested: bool,
}

impl View for ControlLoop {
    type V = LoopView;

    closed spec fn view(&self) -> LoopView {
        LoopView {
            phase: self.phase,
            topics: Seq::new(self.topics@.len(), |i: int| self.topics@[i]@),
            token: self.token,
            flags: self.flags,
            interval_ms: self.interval_ms,
            iterations: self.iterations,
            failed_calls: self.failed_calls,
            stop_requested: self.stop_requested,
        }
    }
}

impl ControlLoop {
    /// Makes the loop of a session. A session whose registration the bus has
    /// not accepted gets none: it fails with the session's own error, or
    /// with `RegistrationFailure` where no registration was concluded.
    pub fn for_session(session: &Session, flags: i32, interval_ms: u64) -> (made: Result<
        ControlLoop,
        BridgeError,
    >)
        ensures
            made matches Ok(l) ==> loop_for(session.phase(), flags, interval_ms) == Ok::<
                LoopView,
                BridgeError,
            >(l@) && l@.wf(),
            made matches Err(e) ==> loop_for(session.phase(), flags, interval_ms) == Err::<
                LoopView,
                BridgeError,
            >(e),
    {
        match session.current_phase() {
            Phase::Registered(_, token) => {
                let made = ControlLoop {
                    phase: LoopPhase::Idle,
                    topics: Vec::new(),
                    token,
                    flags,
                    interval_ms,
                    iterations: 0,
                    failed_calls: 0,
                    stop_requested: false,
                };
                assert(made@.topics =~= Seq::empty());
                Ok(made)
            },
            Phase::Failed(error) => Err(error),
            _ => Err(BridgeError::RegistrationFailure),
        }
    }

    /// Where the loop stands.
    pub fn phase(&self) -> (phase: LoopPhase)
        ensures
            phase == self@.phase,
    {
        self.phase
    }

    /// The number of tracked topics.
    pub fn topic_count(&self) -> (count: usize)
        ensures
            count == self@.topics.len(),
    {
        self.topics.len()
    }

    /// The token that the loop's calls carry.
    pub fn token(&self) -> (token: ClientToken)
        ensures
            token == self@.token,
    {
        self.token
    }

    /// The flags that the loop's calls carry.
    pub fn flags(&self) -> (flags: i32)
        ensures
            flags == self@.flags,
    {
        self.flags
    }

    /// The time between two iterations, in milliseconds.
    pub fn interval_ms(&self) -> (ms: u64)
        ensures
            ms == self@.interval_ms,
    {
        self.interval_ms
    }

    /// The number of iterations that the loop has slept through.
    pub fn iterations(&self) -> (count: u64)
        ensures
            count == self@.iterations,
    {
        self.iterations
    }

    /// The number of calls that did not succeed.
    pub fn failed_calls(&self) -> (count: u64)
        ensures
            count == self@.failed_calls,
    {
        self.failed_calls
    }

    /// Whether the loop has stopped for good.
    pub fn is_stopped(&self) -> (stopped: bool)
        ensures
            stopped == (self@.phase == LoopPhase::Failed || self@.phase == LoopPhase::Cancelled),
    {
        match self.phase {
            LoopPhase::Failed => true,
            LoopPhase::Cancelled => true,
            _ => false,
        }
    }

    /// Adds a topic to those that the loop keeps asserted. A topic that
    /// cannot be dispatched is refused as an invalid target, and a loop that
    /// was already spawned takes no more topics; either way the loop stays as
    /// it is.
    pub fn track(&mut self, topic: &TopicDescriptor) -> (status: Status)
        ensures
            status == track_status(old(self)@, topic@),
            final(self)@ == (if status.success() {
                LoopView { topics: old(self)@.topics.push(topic@), ..old(self)@ }
            } else {
                old(self)@
            }),
            old(self)@.wf() ==> final(self)@.wf(),
    {
        if !topic.is_dispatchable() {
            return Status::InvalidTarget;
        }
        match self.phase {
            LoopPhase::Idle => {},
            _ => {
                return Status::SessionUnusable;
            },
        }
        let ghost before = self@;
        self.topics.push(topic.duplicate());
        assert(self@.topics =~= before.topics.push(topic@));
        assert(self@.topics.len() <= usize::MAX) by {
            vstd::std_specs::vec::axiom_spec_len(&self.topics);
        }
        Status::Success
    }

    /// Asks the loop to stop at the top of its next iteration.
    pub fn request_stop(&mut self)
        ensures
            final(self)@ == (LoopView { stop_requested: true, ..old(self)@ }),
    {
        self.stop_requested = true;
    }

    fn issue(&self, kind: DispatchKind, index: usize) -> (action: LoopAction)
        requires
            index < self@.topics.len(),
        ensures
            action@ == self@.call(kind, index as int),
    {
        LoopAction::Dispatch {
            index,
            call: DispatchCall {
                kind,
                topic: self.topics[index].duplicate(),
                flags: self.flags,
                token: self.token,
            },
        }
    }

    fn note(&mut self, reply: BusReply)
        ensures
            final(self)@ == old(self)@.recorded(reply),
    {
        if !Status::from_reply(reply).is_ok() {
            if self.failed_calls < u64::MAX {
                self.failed_calls = self.failed_calls + 1;
            }
        }
    }

    fn proceed_disabling(&mut self, index: usize) -> (action: LoopAction)
        ensures
            (final(self)@, action@) == old(self)@.proceed_disabling(index as int),
    {
        if index < self.topics.len() {
            self.phase = LoopPhase::Disabling(index);
            self.issue(DispatchKind::Disable, index)
        } else {
            self.phase = LoopPhase::Sleeping;
            LoopAction::Sleep(self.interval_ms)
        }
    }

    fn proceed_enabling(&mut self, index: usize) -> (action: LoopAction)
        ensures
            (final(self)@, action@) == old(self)@.proceed_enabling(index as int),
    {
        if index < self.topics.len() {
            self.phase = LoopPhase::Enabling(index);
            self.issue(DispatchKind::Enable, index)
        } else {
            self.proceed_disabling(0)
        }
    }

    fn begin_iteration(&mut self) -> (action: LoopAction)
        ensures
            (final(self)@, action@) == old(self)@.begin_iteration(),
    {
        if self.stop_requested {
            self.phase = LoopPhase::Cancelled;
            LoopAction::Finish
        } else {
            self.proceed_enabling(0)
        }
    }

    /// Takes one event and says what to do next, as the transition function
    /// `LoopView::step` defines it. An event that the loop does not await in
    /// its phase changes nothing and asks for nothing.
    pub fn step(&mut self, event: LoopEvent) -> (action: LoopAction)
        ensures
            (final(self)@, action@) == old(self)@.step(event),
            old(self)@.wf() ==> final(self)@.wf(),
    {
        match (self.phase, event) {
            (LoopPhase::Idle, LoopEvent::Spawned) => {
                self.phase = LoopPhase::Attaching;
                LoopAction::Attach
            },
            (LoopPhase::Attaching, LoopEvent::Attached) => self.begin_iteration(),
            (LoopPhase::Attaching, LoopEvent::AttachFailed) => {
                self.phase = LoopPhase::Failed;
                LoopAction::Halt(BridgeError::Attachment)
            },
            (LoopPhase::Enabling(i), LoopEvent::Replied(reply)) => {
                self.note(reply);
                if i < self.topics.len() {
                    self.proceed_enabling(i + 1)
                } else {
                    self.proceed_disabling(0)
                }
            },
            (LoopPhase::Disabling(i), LoopEvent::Replied(reply)) => {
                self.note(reply);
                if i < self.topics.len() {
                    self.proceed_disabling(i + 1)
                } else {
                    self.phase = LoopPhase::Sleeping;
                    LoopAction::Sleep(self.interval_ms)
                }
            },
            (LoopPhase::Sleeping, LoopEvent::Woke) => {
                if self.iterations < u64::MAX {
                    self.iterations = self.iterations + 1;
                }
                self.begin_iteration()
            },
            _ => LoopAction::Nothing,
        }
    }
}

} // verus!
