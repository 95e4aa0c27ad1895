//! What holds of the bridge as a whole, proved from the transition
//! functions that the session and the control loop are specified by.

use vstd::prelude::*;
use crate::control_loop::{
    counted, iteration_actions, loop_for, run, ActionView, LoopEvent, LoopPhase, LoopView,
};
use crate::handle::{typing, HandleProbe, Locality};
use crate::identity::IdentityView;
use crate::session::{
    dispatch_outcome, dispatch_verdict, opened, place_of, registration_begin_status,
    registration_begun, registration_concluded, registration_status, DispatchKind, Phase,
};
use crate::report::{labelled, locality_line, status_text};
use crate::setup::{
    framed, framed_size, registration_label, InitialCallView, SetupActionView, SetupStage,
    SetupView,
};
use crate::status::{status_of_reply, BridgeError, BusReply, Status};
use crate::token::ClientToken;
use crate::topic::{present, TopicView};

verus! {

/// A host reference that could not be converted fails typing with
/// `HandleAcquisition`, and on the session that it leaves no registration is
/// begun: every attempt is refused, whatever the identity, the token and the
/// encoder, and the session stays failed.
pub proof fn unacquired_reference_registers_nothing(
    probe: HandleProbe,
    identity: IdentityView,
    token: ClientToken,
    framed: bool,
)
    requires
        !probe.acquired,
    ensures
        typing(probe) == Err::<Locality, BridgeError>(BridgeError::HandleAcquisition),
        opened(probe) == Phase::Failed(BridgeError::HandleAcquisition),
        !registration_begin_status(opened(probe), identity, framed).success(),
        registration_begun(opened(probe), identity, token, framed) == opened(probe),
{
}

/// Setup on a host reference that cannot be typed is over as it opens: it
/// asks for no registration call and for no other, whatever the encoder
/// returned and whatever reply is handed to it, and its report ends with the
/// failure.
pub proof fn untyped_reference_ends_setup(
    probe: HandleProbe,
    proxy_type: Seq<char>,
    identity: IdentityView,
    token: ClientToken,
    flags: i32,
    calls: Seq<InitialCallView>,
    size: Option<u64>,
    message: Option<Seq<u8>>,
    reply: BusReply,
)
    requires
        typing(probe) is Err,
    ensures
        ({
            let setup = SetupView::opened(probe, proxy_type, identity, token, flags, calls);
            &&& setup.stage == SetupStage::Done
            &&& setup.phase == Phase::Failed(typing(probe)->Err_0)
            &&& !probe.acquired ==> setup.phase == Phase::Failed(BridgeError::HandleAcquisition)
            &&& setup.started(size, message) == (setup, SetupActionView::Finish)
            &&& setup.replied(reply) == (setup, SetupActionView::Finish)
        }),
{
}

/// Setup on a reference that types, with an identity that names its entity
/// and can be framed, asks for exactly one registration: the report opens
/// with an empty line, the handle and the place of its peer; the call
/// carries the package name, the identity's `wire` form, the token and the
/// flags; and once the bus accepts it the session is registered, the report
/// says so, and no second registration is asked for.
pub proof fn sound_setup_registers_once(
    probe: HandleProbe,
    proxy_type: Seq<char>,
    identity: IdentityView,
    token: ClientToken,
    flags: i32,
    calls: Seq<InitialCallView>,
)
    requires
        typing(probe) is Ok,
        identity.valid(),
        identity.encodable(),
        calls.len() <= usize::MAX,
    ensures
        ({
            let locality = typing(probe)->Ok_0;
            let opened = SetupView::opened(probe, proxy_type, identity, token, flags, calls);
            let (begun, first) = opened.started(framed_size(identity), framed(identity));
            let (armed, second) = begun.replied(BusReply::Answered(0));
            &&& opened.lines == seq![
                ""@,
                "got SpIBinder"@,
                locality_line(locality),
                proxy_type,
            ]
            &&& first == (SetupActionView::Register {
                package_name: identity.package_name,
                entity: identity.wire(),
                token,
                flags,
            })
            &&& begun.phase == Phase::Registering(locality, token)
            &&& armed.phase == Phase::Registered(locality, token)
            &&& !(second is Register)
            &&& armed.lines.len() > begun.lines.len()
            &&& armed.lines[begun.lines.len() as int] == labelled(
                registration_label(),
                status_text(Status::Success),
            )
        }),
{
    let opened = SetupView::opened(probe, proxy_type, identity, token, flags, calls);
    assert(opened.lines =~= seq![
        ""@,
        "got SpIBinder"@,
        locality_line(typing(probe)->Ok_0),
        proxy_type,
    ]);
    let (begun, first) = opened.started(framed_size(identity), framed(identity));
    let noted = (SetupView {
        phase: registration_concluded(begun.phase, begun.token, BusReply::Answered(0)),
        ..begun
    }).noted(labelled(registration_label(), status_text(Status::Success)));
    setup_asks_only_for_sound_calls(noted, 0);
}

/// A registration that the bus does not accept ends setup: no subscription
/// call follows, the session is failed, and the report says so.
pub proof fn refused_registration_ends_setup(state: SetupView, locality: Locality, reply: BusReply)
    requires
        state.stage == SetupStage::Registering,
        state.phase == Phase::Registering(locality, state.token),
        reply != BusReply::Answered(0),
    ensures
        ({
            let (next, action) = state.replied(reply);
            &&& action == SetupActionView::Finish
            &&& next.stage == SetupStage::Done
            &&& next.phase == Phase::Failed(BridgeError::RegistrationFailure)
            &&& next.lines.len() == state.lines.len() + 2
        }),
{
}

/// Setup asks the bus only for sound calls. From any index, the next action
/// is either the call of a later initial call whose topic can be dispatched,
/// made with the registered token, or the end of setup; every call that is
/// passed over has its line in the report; the session is left as it is.
pub proof fn setup_asks_only_for_sound_calls(state: SetupView, index: int)
    requires
        0 <= index,
        state.calls.len() <= usize::MAX,
    ensures
        ({
            let (next, action) = state.subscribe_from(index);
            &&& next.phase == state.phase
            &&& next.calls == state.calls
            &&& next.token == state.token
            &&& next.flags == state.flags
            &&& state.lines.len() <= next.lines.len()
            &&& forall|k: int|
                0 <= k < state.lines.len() ==> #[trigger] next.lines[k] == state.lines[k]
            &&& !(action is Register)
            &&& action is Finish ==> next.stage == SetupStage::Done && next.lines.len()
                == state.lines.len() + if index < state.calls.len() {
                state.calls.len() - index
            } else {
                0
            }
            &&& action matches SetupActionView::Dispatch { kind, topic, flags, token } ==> {
                &&& next.stage matches SetupStage::Subscribing(i)
                &&& index <= i < state.calls.len()
                &&& kind == state.calls[i as int].kind
                &&& topic == state.calls[i as int].topic
                &&& topic.dispatchable()
                &&& state.phase is Registered
                &&& dispatch_verdict(state.phase, topic, token).success()
                &&& token == state.token
                &&& flags == state.flags
                &&& next.lines.len() == state.lines.len() + (i - index)
            }
        }),
    decreases state.calls.len() - index,
{
    if index < state.calls.len() {
        let call = state.calls[index];
        let verdict = dispatch_verdict(state.phase, call.topic, state.token);
        if !verdict.success() {
            setup_asks_only_for_sound_calls(
                state.noted(labelled(call.label, status_text(verdict))),
                index + 1,
            );
        }
    }
}

/// A failed session stays failed: no registration attempt, no reply and no
/// dispatch call is accepted on it, and no control loop starts from it.
pub proof fn failed_session_is_final(
    error: BridgeError,
    identity: IdentityView,
    topic: TopicView,
    token: ClientToken,
    framed: bool,
    reply: BusReply,
    flags: i32,
    interval_ms: u64,
)
    ensures
        registration_begun(Phase::Failed(error), identity, token, framed) == Phase::Failed(error),
        registration_concluded(Phase::Failed(error), token, reply) == Phase::Failed(error),
        !registration_begin_status(Phase::Failed(error), identity, framed).success(),
        !registration_status(Phase::Failed(error), token, reply).success(),
        !dispatch_verdict(Phase::Failed(error), topic, token).success(),
        loop_for(Phase::Failed(error), flags, interval_ms) is Err,
{
}

/// A registration that the bus does not accept leaves the session failed,
/// so that no control loop starts from it; one that the bus accepts arms the
/// session with the token of the call.
pub proof fn registration_decides_the_session(
    locality: Locality,
    token: ClientToken,
    reply: BusReply,
    flags: i32,
    interval_ms: u64,
)
    ensures
        ({
            let after = registration_concluded(Phase::Registering(locality, token), token, reply);
            if reply == BusReply::Answered(0) {
                after == Phase::Registered(locality, token)
            } else {
                after == Phase::Failed(BridgeError::RegistrationFailure) && loop_for(
                    after,
                    flags,
                    interval_ms,
                ) is Err
            }
        }),
{
}

/// The session's proxy is set once: a session that has a proxy keeps it, in
/// the same place, through every registration step, unless the step fails
/// the session. An accepted registration is kept as it is, token included:
/// later attempts and replies change nothing.
pub proof fn proxy_and_token_are_set_once(
    phase: Phase,
    identity: IdentityView,
    token: ClientToken,
    framed: bool,
    reply: BusReply,
)
    ensures
        ({
            let begun = registration_begun(phase, identity, token, framed);
            let concluded = registration_concluded(phase, token, reply);
            &&& begun is Failed || place_of(begun) == place_of(phase)
            &&& concluded is Failed || place_of(concluded) == place_of(phase)
            &&& phase is Registered ==> begun == phase && concluded == phase
        }),
{
}

/// A topic without a resource name never succeeds, in any phase, with any
/// token and whatever the bus would have replied: the call fails as an
/// invalid target. The same holds of a topic without an entity name.
pub proof fn incomplete_topic_is_refused(
    phase: Phase,
    topic: TopicView,
    token: ClientToken,
    reply: BusReply,
)
    requires
        !present(topic.resource) || !present(topic.entity),
    ensures
        dispatch_verdict(phase, topic, token) == Status::InvalidTarget,
        dispatch_outcome(phase, topic, token, reply) == Status::InvalidTarget,
        !dispatch_outcome(phase, topic, token, reply).success(),
{
}

/// A dispatch call that passes the local checks ends with the bus's own
/// status. The checks read the session's phase, the topic and the token and
/// nothing else, and a dispatch call leaves the phase as it is: so the same
/// call made again is decided as before, and where the bus accepts both
/// calls, both succeed.
pub proof fn repeated_call_is_decided_alike(
    locality: Locality,
    topic: TopicView,
    token: ClientToken,
    first: BusReply,
    second: BusReply,
)
    requires
        topic.dispatchable(),
    ensures
        dispatch_verdict(Phase::Registered(locality, token), topic, token).success(),
        dispatch_outcome(Phase::Registered(locality, token), topic, token, first)
            == status_of_reply(first),
        dispatch_outcome(Phase::Registered(locality, token), topic, token, second)
            == status_of_reply(second),
        first == BusReply::Answered(0) && second == BusReply::Answered(0) ==> dispatch_outcome(
            Phase::Registered(locality, token),
            topic,
            token,
            first,
        ).success() && dispatch_outcome(
            Phase::Registered(locality, token),
            topic,
            token,
            second,
        ).success(),
{
}

/// A call made with a token other than the registered one is rejected, for
/// every topic and whatever the bus would have replied.
pub proof fn foreign_token_is_rejected(
    locality: Locality,
    registered: ClientToken,
    token: ClientToken,
    topic: TopicView,
    reply: BusReply,
)
    requires
        token != registered,
    ensures
        !dispatch_outcome(Phase::Registered(locality, registered), topic, token, reply).success(),
        topic.dispatchable() ==> dispatch_outcome(
            Phase::Registered(locality, registered),
            topic,
            token,
            reply,
        ) == Status::Unauthorized,
{
}

/// Until a registration is accepted there is no registered token, and every
/// dispatch call is refused.
pub proof fn unregistered_session_dispatches_nothing(
    phase: Phase,
    topic: TopicView,
    token: ClientToken,
    reply: BusReply,
)
    requires
        !(phase is Registered),
    ensures
        !dispatch_outcome(phase, topic, token, reply).success(),
{
}

/// Switching dispatching off asks for no earlier call that switched it on:
/// the session keeps no record of what is enabled, and a disable call for a
/// sound topic with the registered token ends with the bus's own status.
pub proof fn disable_needs_no_enable(
    locality: Locality,
    topic: TopicView,
    token: ClientToken,
    reply: BusReply,
)
    requires
        topic.dispatchable(),
    ensures
        dispatch_verdict(Phase::Registered(locality, token), topic, token).success(),
        dispatch_outcome(Phase::Registered(locality, token), topic, token, reply)
            == status_of_reply(reply),
        reply == BusReply::Answered(0) ==> dispatch_outcome(
            Phase::Registered(locality, token),
            topic,
            token,
            reply,
        ).success(),
{
}

/// Only a failed attachment halts the loop with an error: whatever the bus
/// replies to a call, the loop goes on with the next call or sleeps.
pub proof fn only_attachment_failure_halts(state: LoopView, event: LoopEvent)
    ensures
        ({
            let (next, action) = state.step(event);
            &&& next.phase == LoopPhase::Failed <==> state.phase == LoopPhase::Failed || (
            state.phase == LoopPhase::Attaching && event == LoopEvent::AttachFailed)
            &&& action is Halt <==> state.phase == LoopPhase::Attaching && event
                == LoopEvent::AttachFailed
            &&& event is Replied && (state.phase is Enabling || state.phase is Disabling) ==> (
            next.phase is Enabling || next.phase is Disabling || next.phase
                == LoopPhase::Sleeping)
        }),
{
}

/// A loop that is sound stays sound, and every call that it asks for is the
/// call of a topic that can be dispatched, with the loop's token and flags.
pub proof fn step_keeps_loop_sound(state: LoopView, event: LoopEvent)
    requires
        state.wf(),
    ensures
        ({
            let (next, action) = state.step(event);
            &&& next.wf()
            &&& next.topics == state.topics
            &&& next.token == state.token
            &&& action matches ActionView::Dispatch { index, topic, flags, token, .. } ==> 0
                <= index < state.topics.len() && topic == state.topics[index]
                && topic.dispatchable() && flags == state.flags && token == state.token
        }),
{
}

/// Whether every event is a reply of the bus.
pub open spec fn all_replies(events: Seq<LoopEvent>) -> bool {
    forall|j: int| 0 <= j < events.len() ==> (#[trigger] events[j]) is Replied
}

/// Whether two states differ at most in their phase and in their count of
/// failed calls.
pub open spec fn same_setup(a: LoopView, b: LoopView) -> bool {
    &&& a.topics == b.topics
    &&& a.token == b.token
    &&& a.flags == b.flags
    &&& a.interval_ms == b.interval_ms
    &&& a.iterations == b.iterations
    &&& a.stop_requested == b.stop_requested
}

proof fn run_of_joined(state: LoopView, head: Seq<LoopEvent>, tail: Seq<LoopEvent>)
    ensures
        run(state, head + tail) == ({
            let (middle, first) = run(state, head);
            let (last, second) = run(middle, tail);
            (last, first + second)
        }),
    decreases head.len(),
{
    if head.len() == 0 {
        assert(head + tail =~= tail);
        let (last, second) = run(state, tail);
        assert(Seq::<ActionView>::empty() + second =~= second);
    } else {
        let (next, action) = state.step(head[0]);
        assert((head + tail)[0] == head[0]);
        assert((head + tail).drop_first() =~= head.drop_first() + tail);
        run_of_joined(next, head.drop_first(), tail);
        let (middle, first) = run(next, head.drop_first());
        let (last, second) = run(middle, tail);
        assert(seq![action] + (first + second) =~= (seq![action] + first) + second);
    }
}

/// The phase in which a loop awaits the reply to the call of one kind for
/// the topic at an index.
pub open spec fn awaiting(kind: DispatchKind, index: int) -> LoopPhase {
    match kind {
        DispatchKind::Enable => LoopPhase::Enabling(index as usize),
        DispatchKind::Disable => LoopPhase::Disabling(index as usize),
    }
}

/// What follows the last reply of a pass: after the enable pass the first
/// disable call, after the disable pass the sleep.
pub open spec fn after_pass(state: LoopView, kind: DispatchKind) -> (LoopPhase, ActionView) {
    match kind {
        DispatchKind::Enable => (LoopPhase::Disabling(0), state.call(DispatchKind::Disable, 0)),
        DispatchKind::Disable => (LoopPhase::Sleeping, ActionView::Sleep(state.interval_ms)),
    }
}

proof fn rest_of_pass(state: LoopView, kind: DispatchKind, i: int, events: Seq<LoopEvent>)
    requires
        state.phase == awaiting(kind, i),
        0 <= i < state.topics.len() <= usize::MAX,
        events.len() == state.topics.len() - i,
        all_replies(events),
    ensures
        ({
            let (last, actions) = run(state, events);
            &&& last.phase == after_pass(state, kind).0
            &&& same_setup(state, last)
            &&& actions.len() == events.len()
            &&& forall|j: int|
                0 <= j < actions.len() - 1 ==> #[trigger] actions[j] == state.call(kind, i + 1 + j)
            &&& actions[actions.len() - 1] == after_pass(state, kind).1
        }),
    decreases state.topics.len() - i,
{
    let (next, action) = state.step(events[0]);
    let rest = events.drop_first();
    assert(events[0] is Replied);
    if i + 1 < state.topics.len() {
        assert(all_replies(rest)) by {
            assert forall|j: int| 0 <= j < rest.len() implies (#[trigger] rest[j]) is Replied by {
                assert(rest[j] == events[j + 1]);
            }
        }
        rest_of_pass(next, kind, i + 1, rest);
        let (last, actions) = run(next, rest);
        let all = seq![action] + actions;
        assert forall|j: int| 0 <= j < all.len() - 1 implies #[trigger] all[j] == state.call(
            kind,
            i + 1 + j,
        ) by {
            if j > 0 {
                assert(all[j] == actions[j - 1]);
            }
        }
        assert(all[all.len() - 1] == actions[actions.len() - 1]);
    } else {
        assert(rest.len() == 0);
        assert(run(next, rest).1 =~= Seq::<ActionView>::empty());
    }
}

/// From the top of an iteration, a loop that was not asked to stop issues
/// exactly one enable call per tracked topic, in the order of tracking,
/// then exactly one disable call per tracked topic, in the same order, then
/// sleeps for its interval: whatever the bus replies. `first` is the action
/// at the top; `replies` are the events that follow, one per call.
pub proof fn iteration_calls_each_topic_once(state: LoopView, replies: Seq<LoopEvent>)
    requires
        state.wf(),
        !state.stop_requested,
        replies.len() == 2 * state.topics.len(),
        all_replies(replies),
    ensures
        ({
            let (top, first) = state.begin_iteration();
            let (last, actions) = run(top, replies);
            &&& seq![first] + actions == iteration_actions(state)
            &&& last.phase == LoopPhase::Sleeping
            &&& same_setup(state, last)
            &&& last.wf()
        }),
{
    let n = state.topics.len() as int;
    let (top, first) = state.begin_iteration();
    let (last, actions) = run(top, replies);
    if n == 0 {
        assert(actions =~= Seq::<ActionView>::empty());
        assert(seq![first] + actions =~= iteration_actions(state));
    } else {
        let enables = replies.subrange(0, n);
        let disables = replies.subrange(n, 2 * n);
        assert(replies =~= enables + disables);
        assert(all_replies(enables)) by {
            assert forall|j: int| 0 <= j < enables.len() implies (#[trigger] enables[j])
                is Replied by {
                assert(enables[j] == replies[j]);
            }
        }
        assert(all_replies(disables)) by {
            assert forall|j: int| 0 <= j < disables.len() implies (#[trigger] disables[j])
                is Replied by {
                assert(disables[j] == replies[j + n]);
            }
        }
        run_of_joined(top, enables, disables);
        rest_of_pass(top, DispatchKind::Enable, 0, enables);
        let (middle, head) = run(top, enables);
        rest_of_pass(middle, DispatchKind::Disable, 0, disables);
        let (end, tail) = run(middle, disables);
        assert(actions == head + tail);
        let all = seq![first] + actions;
        let want = iteration_actions(state);
        assert(all.len() == want.len());
        assert forall|j: int| 0 <= j < all.len() implies all[j] == want[j] by {
            if j == 0 {
            } else if j < n {
                assert(all[j] == head[j - 1]);
            } else if j == n {
                assert(all[j] == head[n - 1]);
            } else if j < 2 * n {
                assert(all[j] == tail[j - n - 1]);
            } else {
                assert(all[j] == tail[n - 1]);
            }
        }
        assert(all =~= want);
    }
}

/// A sleeping loop that wakes goes through one full iteration and sleeps
/// again, one iteration further on.
pub proof fn waking_runs_one_iteration(state: LoopView, replies: Seq<LoopEvent>)
    requires
        state.wf(),
        state.phase == LoopPhase::Sleeping,
        !state.stop_requested,
        replies.len() == 2 * state.topics.len(),
        all_replies(replies),
    ensures
        ({
            let (last, actions) = run(state, seq![LoopEvent::Woke] + replies);
            &&& actions == iteration_actions(state)
            &&& last.phase == LoopPhase::Sleeping
            &&& last.iterations == counted(state.iterations)
            &&& last.topics == state.topics
            &&& last.wf()
        }),
{
    let events = seq![LoopEvent::Woke] + replies;
    let woken = LoopView { iterations: counted(state.iterations), ..state };
    assert(events[0] == LoopEvent::Woke);
    assert(events.drop_first() =~= replies);
    assert(state.step(events[0]) == woken.begin_iteration());
    iteration_calls_each_topic_once(woken, replies);
    assert(iteration_actions(woken) =~= iteration_actions(state));
}

} // verus!
