use ustreamer_bridge::control_loop::{ControlLoop, LoopAction, LoopEvent, LoopPhase};
use ustreamer_bridge::handle::HandleProbe;
use ustreamer_bridge::identity::ClientIdentity;
use ustreamer_bridge::session::{DispatchKind, Session};
use ustreamer_bridge::status::{BridgeError, BusReply, Status};
use ustreamer_bridge::token::ClientToken;
use ustreamer_bridge::topic::TopicDescriptor;

fn topic(entity: &str, resource: &str) -> TopicDescriptor {
    TopicDescriptor::new().with_entity(entity.to_string()).with_resource(resource.to_string())
}

fn fresh_loop(topics: &[TopicDescriptor], interval_ms: u64) -> ControlLoop {
    let token = ClientToken::new(42);
    let mut session =
        Session::open(HandleProbe { acquired: true, remote: false, implements_bus: true });
    let identity = ClientIdentity::new(
        "org.eclipse.uprotocol.core.ustreamer".to_string(),
        "ustreamer_glue".to_string(),
        1,
    );
    session.begin_registration(&identity, token, 0).unwrap();
    assert_eq!(session.conclude_registration(token, BusReply::Answered(0)), Status::Success);
    let mut made = ControlLoop::for_session(&session, 0, interval_ms).unwrap();
    for t in topics {
        assert_eq!(made.track(t), Status::Success);
    }
    made
}

/// What an action asks for, in a form that can be compared.
fn brief(action: &LoopAction) -> String {
    match action {
        LoopAction::Attach => "attach".to_string(),
        LoopAction::Dispatch { index, call } => {
            let kind = match call.kind {
                DispatchKind::Enable => "enable",
                DispatchKind::Disable => "disable",
            };
            format!(
                "{} {} {}/{}",
                kind,
                index,
                call.topic.entity().clone().unwrap(),
                call.topic.resource().clone().unwrap()
            )
        }
        LoopAction::Sleep(ms) => format!("sleep {}", ms),
        LoopAction::Halt(error) => format!("halt {:?}", error),
        LoopAction::Finish => "finish".to_string(),
        LoopAction::Nothing => "nothing".to_string(),
    }
}

/// Drives the loop until it sleeps or stops, answering every call with the
/// given reply, and returns what it asked for on the way.
fn drive(control: &mut ControlLoop, first: LoopEvent, reply: BusReply) -> Vec<String> {
    let mut asked = Vec::new();
    let mut action = control.step(first);
    loop {
        asked.push(brief(&action));
        match action {
            LoopAction::Dispatch { .. } => action = control.step(LoopEvent::Replied(reply)),
            _ => return asked,
        }
    }
}

#[test]
fn five_iterations_call_each_topic_once_in_order() {
    let mut control = fresh_loop(&[topic("topic_to_subscribe_to", "resource_i_want")], 100);
    assert_eq!(brief(&control.step(LoopEvent::Spawned)), "attach");
    let mut event = LoopEvent::Attached;
    for iteration in 0..5u64 {
        let asked = drive(&mut control, event, BusReply::Answered(0));
        assert_eq!(
            asked,
            vec![
                "enable 0 topic_to_subscribe_to/resource_i_want".to_string(),
                "disable 0 topic_to_subscribe_to/resource_i_want".to_string(),
                "sleep 100".to_string(),
            ]
        );
        assert_eq!(control.phase(), LoopPhase::Sleeping);
        assert_eq!(control.iterations(), iteration);
        event = LoopEvent::Woke;
    }
    assert_eq!(control.failed_calls(), 0);
}

#[test]
fn iteration_enables_all_then_disables_all() {
    let topics = [topic("a", "x"), topic("b", "y"), topic("c", "z")];
    let mut control = fresh_loop(&topics, 250);
    assert_eq!(control.topic_count(), 3);
    control.step(LoopEvent::Spawned);
    let asked = drive(&mut control, LoopEvent::Attached, BusReply::Answered(0));
    assert_eq!(
        asked,
        vec![
            "enable 0 a/x",
            "enable 1 b/y",
            "enable 2 c/z",
            "disable 0 a/x",
            "disable 1 b/y",
            "disable 2 c/z",
            "sleep 250",
        ]
    );
    let again = drive(&mut control, LoopEvent::Woke, BusReply::Answered(0));
    assert_eq!(again, asked);
    assert_eq!(control.iterations(), 1);
}

#[test]
fn calls_carry_token_and_flags() {
    let mut control = fresh_loop(&[topic("a", "x")], 100);
    control.step(LoopEvent::Spawned);
    match control.step(LoopEvent::Attached) {
        LoopAction::Dispatch { index, call } => {
            assert_eq!(index, 0);
            assert_eq!(call.kind, DispatchKind::Enable);
            assert_eq!(call.token, ClientToken::new(42));
            assert_eq!(call.flags, 0);
            assert!(call.topic.same_as(&topic("a", "x")));
        }
        other => panic!("unexpected action {:?}", other),
    }
    assert_eq!(control.phase(), LoopPhase::Enabling(0));
}

#[test]
fn loop_without_topics_only_sleeps() {
    let mut control = fresh_loop(&[], 100);
    control.step(LoopEvent::Spawned);
    assert_eq!(drive(&mut control, LoopEvent::Attached, BusReply::Answered(0)), vec!["sleep 100"]);
    assert_eq!(drive(&mut control, LoopEvent::Woke, BusReply::Answered(0)), vec!["sleep 100"]);
    assert_eq!(control.iterations(), 1);
}

#[test]
fn failed_calls_are_counted_and_do_not_stop_the_loop() {
    let mut control = fresh_loop(&[topic("a", "x"), topic("b", "y")], 100);
    control.step(LoopEvent::Spawned);
    let asked = drive(&mut control, LoopEvent::Attached, BusReply::Answered(13));
    assert_eq!(
        asked,
        vec!["enable 0 a/x", "enable 1 b/y", "disable 0 a/x", "disable 1 b/y", "sleep 100"]
    );
    assert_eq!(control.failed_calls(), 4);
    assert!(!control.is_stopped());
    let next = drive(&mut control, LoopEvent::Woke, BusReply::Unreachable);
    assert_eq!(next, asked);
    assert_eq!(control.failed_calls(), 8);
    assert_eq!(control.phase(), LoopPhase::Sleeping);
}

#[test]
fn attachment_failure_halts_the_loop() {
    let mut control = fresh_loop(&[topic("a", "x")], 100);
    assert_eq!(brief(&control.step(LoopEvent::Spawned)), "attach");
    assert_eq!(control.phase(), LoopPhase::Attaching);
    match control.step(LoopEvent::AttachFailed) {
        LoopAction::Halt(error) => assert_eq!(error, BridgeError::Attachment),
        other => panic!("unexpected action {:?}", other),
    }
    assert_eq!(control.phase(), LoopPhase::Failed);
    assert!(control.is_stopped());
    for event in [
        LoopEvent::Spawned,
        LoopEvent::Attached,
        LoopEvent::AttachFailed,
        LoopEvent::Replied(BusReply::Answered(0)),
        LoopEvent::Woke,
    ] {
        assert_eq!(brief(&control.step(event)), "nothing");
        assert_eq!(control.phase(), LoopPhase::Failed);
    }
}

#[test]
fn unawaited_events_change_nothing() {
    let mut control = fresh_loop(&[topic("a", "x")], 100);
    assert_eq!(brief(&control.step(LoopEvent::Woke)), "nothing");
    assert_eq!(brief(&control.step(LoopEvent::Attached)), "nothing");
    assert_eq!(brief(&control.step(LoopEvent::Replied(BusReply::Answered(0)))), "nothing");
    assert_eq!(control.phase(), LoopPhase::Idle);
    control.step(LoopEvent::Spawned);
    control.step(LoopEvent::Attached);
    assert_eq!(brief(&control.step(LoopEvent::Woke)), "nothing");
    assert_eq!(brief(&control.step(LoopEvent::Spawned)), "nothing");
    assert_eq!(control.phase(), LoopPhase::Enabling(0));
    assert_eq!(control.failed_calls(), 0);
    assert_eq!(control.iterations(), 0);
}

#[test]
fn stop_request_is_honoured_at_top_of_iteration() {
    let mut control = fresh_loop(&[topic("a", "x")], 100);
    control.step(LoopEvent::Spawned);
    assert_eq!(brief(&control.step(LoopEvent::Attached)), "enable 0 a/x");
    control.request_stop();
    assert_eq!(brief(&control.step(LoopEvent::Replied(BusReply::Answered(0)))), "disable 0 a/x");
    assert_eq!(brief(&control.step(LoopEvent::Replied(BusReply::Answered(0)))), "sleep 100");
    assert_eq!(brief(&control.step(LoopEvent::Woke)), "finish");
    assert_eq!(control.phase(), LoopPhase::Cancelled);
    assert!(control.is_stopped());
    assert_eq!(control.iterations(), 1);
    assert_eq!(brief(&control.step(LoopEvent::Woke)), "nothing");
}

#[test]
fn stop_request_before_first_iteration() {
    let mut control = fresh_loop(&[topic("a", "x")], 100);
    control.request_stop();
    assert_eq!(brief(&control.step(LoopEvent::Spawned)), "attach");
    assert_eq!(brief(&control.step(LoopEvent::Attached)), "finish");
    assert_eq!(control.phase(), LoopPhase::Cancelled);
}

#[test]
fn track_refuses_incomplete_topics() {
    let mut control = fresh_loop(&[], 100);
    let no_resource = TopicDescriptor::new().with_entity("topic_to_subscribe_to".to_string());
    assert_eq!(control.track(&no_resource), Status::InvalidTarget);
    assert_eq!(control.track(&TopicDescriptor::new()), Status::InvalidTarget);
    assert_eq!(control.topic_count(), 0);
    assert_eq!(control.track(&topic("a", "x")), Status::Success);
    assert_eq!(control.topic_count(), 1);
}

#[test]
fn track_is_closed_once_spawned() {
    let mut control = fresh_loop(&[topic("a", "x")], 100);
    control.step(LoopEvent::Spawned);
    assert_eq!(control.track(&topic("b", "y")), Status::SessionUnusable);
    assert_eq!(
        control.track(&TopicDescriptor::new().with_entity("b".to_string())),
        Status::InvalidTarget
    );
    assert_eq!(control.topic_count(), 1);
}
