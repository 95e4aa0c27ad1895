use ustreamer_bridge::control_loop::ControlLoop;
use ustreamer_bridge::handle::{type_handle, HandleProbe, Locality};
use ustreamer_bridge::identity::ClientIdentity;
use ustreamer_bridge::session::{DispatchKind, Phase, Session};
use ustreamer_bridge::status::{BridgeError, BusReply, Status};
use ustreamer_bridge::token::ClientToken;
use ustreamer_bridge::topic::TopicDescriptor;

fn local_bus() -> HandleProbe {
    HandleProbe { acquired: true, remote: false, implements_bus: true }
}

fn glue_identity() -> ClientIdentity {
    ClientIdentity::new(
        "org.eclipse.uprotocol.core.ustreamer".to_string(),
        "ustreamer_glue".to_string(),
        1,
    )
}

fn good_topic() -> TopicDescriptor {
    TopicDescriptor::new()
        .with_entity("topic_to_subscribe_to".to_string())
        .with_resource("resource_i_want".to_string())
}

fn bad_topic() -> TopicDescriptor {
    TopicDescriptor::new().with_entity("topic_to_subscribe_to".to_string())
}

fn registered(token: ClientToken) -> Session {
    let mut session = Session::open(local_bus());
    session.begin_registration(&glue_identity(), token, 0).unwrap();
    assert_eq!(session.conclude_registration(token, BusReply::Answered(0)), Status::Success);
    session
}

#[test]
fn typing_reports_locality() {
    let local = type_handle(local_bus()).unwrap();
    assert_eq!(local.locality(), Locality::Local);
    assert!(!local.is_remote());
    let remote =
        type_handle(HandleProbe { acquired: true, remote: true, implements_bus: true }).unwrap();
    assert_eq!(remote.locality(), Locality::Remote);
    assert!(remote.is_remote());
}

#[test]
fn typing_fails_on_unacquired_reference() {
    for remote in [false, true] {
        for implements_bus in [false, true] {
            let probe = HandleProbe { acquired: false, remote, implements_bus };
            assert_eq!(type_handle(probe).unwrap_err(), BridgeError::HandleAcquisition);
        }
    }
}

#[test]
fn typing_fails_on_foreign_interface() {
    let probe = HandleProbe { acquired: true, remote: true, implements_bus: false };
    assert_eq!(type_handle(probe).unwrap_err(), BridgeError::InterfaceCast);
}

#[test]
fn unacquired_reference_attempts_no_registration() {
    let probe = HandleProbe { acquired: false, remote: false, implements_bus: true };
    let mut session = Session::open(probe);
    assert_eq!(session.current_phase(), Phase::Failed(BridgeError::HandleAcquisition));
    assert_eq!(session.failure(), Some(BridgeError::HandleAcquisition));
    assert_eq!(session.locality(), None);
    let attempt = session.begin_registration(&glue_identity(), ClientToken::new(1), 0);
    assert_eq!(attempt.unwrap_err(), Status::SessionUnusable);
    assert_eq!(session.current_phase(), Phase::Failed(BridgeError::HandleAcquisition));
    assert_eq!(
        session.conclude_registration(ClientToken::new(1), BusReply::Answered(0)),
        Status::SessionUnusable
    );
    assert!(!session.is_registered());
    assert_eq!(
        ControlLoop::for_session(&session, 0, 100).unwrap_err(),
        BridgeError::HandleAcquisition
    );
}

#[test]
fn cast_failure_leaves_failed_session() {
    let probe = HandleProbe { acquired: true, remote: false, implements_bus: false };
    let session = Session::open(probe);
    assert_eq!(session.failure(), Some(BridgeError::InterfaceCast));
    assert_eq!(
        session.enable_dispatching(&good_topic(), 0, ClientToken::new(1)).unwrap_err(),
        Status::SessionUnusable
    );
}

#[test]
fn end_to_end_register_and_subscribe() {
    let token = ClientToken::new(7);
    let mut session = Session::open(local_bus());
    assert_eq!(session.current_phase(), Phase::Typed(Locality::Local));
    assert_eq!(session.locality(), Some(Locality::Local));

    let identity = glue_identity();
    let call = session.begin_registration(&identity, token, 0).unwrap();
    assert_eq!(call.package_name, "org.eclipse.uprotocol.core.ustreamer");
    assert_eq!(call.entity, identity.encode().unwrap());
    assert_eq!(call.token, token);
    assert_eq!(call.flags, 0);
    assert_eq!(session.current_phase(), Phase::Registering(Locality::Local, token));

    let status = session.conclude_registration(token, BusReply::Answered(0));
    assert_eq!(status, Status::Success);
    assert!(status.is_ok());
    assert!(session.is_registered());
    assert_eq!(session.token(), Some(token));

    let enable = session.enable_dispatching(&good_topic(), 0, token).unwrap();
    assert_eq!(enable.kind, DispatchKind::Enable);
    assert!(enable.topic.same_as(&good_topic()));
    assert_eq!(enable.token, token);
    assert_eq!(enable.flags, 0);
    assert_eq!(session.conclude_dispatch(&enable, BusReply::Answered(0)), Status::Success);

    let refused = session.enable_dispatching(&bad_topic(), 0, token);
    assert_eq!(refused.unwrap_err(), Status::InvalidTarget);
}

#[test]
fn topic_without_resource_never_succeeds() {
    let token = ClientToken::new(7);
    let session = registered(token);
    assert_eq!(session.enable_dispatching(&bad_topic(), 0, token).unwrap_err(), Status::InvalidTarget);
    assert_eq!(
        session.disable_dispatching(&bad_topic(), 0, token).unwrap_err(),
        Status::InvalidTarget
    );
    let empty_resource = TopicDescriptor::new()
        .with_entity("topic_to_subscribe_to".to_string())
        .with_resource(String::new());
    assert_eq!(
        session.enable_dispatching(&empty_resource, 0, token).unwrap_err(),
        Status::InvalidTarget
    );
    let no_entity = TopicDescriptor::new().with_resource("resource_i_want".to_string());
    assert_eq!(session.enable_dispatching(&no_entity, 0, token).unwrap_err(), Status::InvalidTarget);
    assert_eq!(
        session.plan_dispatch(DispatchKind::Disable, &TopicDescriptor::new(), 0, token).unwrap_err(),
        Status::InvalidTarget
    );
}

#[test]
fn enabling_twice_succeeds_twice() {
    let token = ClientToken::new(7);
    let session = registered(token);
    for _ in 0..2 {
        let call = session.enable_dispatching(&good_topic(), 0, token).unwrap();
        assert_eq!(call.kind, DispatchKind::Enable);
        assert!(session.conclude_dispatch(&call, BusReply::Answered(0)).is_ok());
    }
    assert_eq!(session.token(), Some(token));
}

#[test]
fn disabling_needs_no_earlier_enable() {
    let token = ClientToken::new(7);
    let session = registered(token);
    let call = session.disable_dispatching(&good_topic(), 0, token).unwrap();
    assert_eq!(call.kind, DispatchKind::Disable);
    assert!(call.topic.same_as(&good_topic()));
    assert!(session.conclude_dispatch(&call, BusReply::Answered(0)).is_ok());
}

#[test]
fn foreign_token_is_rejected() {
    let session = registered(ClientToken::new(7));
    let other = ClientToken::new(8);
    assert_eq!(
        session.enable_dispatching(&good_topic(), 0, other).unwrap_err(),
        Status::Unauthorized
    );
    assert_eq!(
        session.disable_dispatching(&good_topic(), 0, other).unwrap_err(),
        Status::Unauthorized
    );
}

#[test]
fn dispatch_before_registration_is_unauthorized() {
    let token = ClientToken::new(7);
    let mut session = Session::open(local_bus());
    assert_eq!(
        session.enable_dispatching(&good_topic(), 0, token).unwrap_err(),
        Status::Unauthorized
    );
    session.begin_registration(&glue_identity(), token, 0).unwrap();
    assert_eq!(
        session.enable_dispatching(&good_topic(), 0, token).unwrap_err(),
        Status::Unauthorized
    );
}

#[test]
fn dispatch_passes_flags_and_bus_status_through() {
    let token = ClientToken::new(7);
    let session = registered(token);
    let call = session.plan_dispatch(DispatchKind::Enable, &good_topic(), 5, token).unwrap();
    assert_eq!(call.flags, 5);
    assert_eq!(session.conclude_dispatch(&call, BusReply::Answered(3)), Status::Rejected(3));
    assert_eq!(session.conclude_dispatch(&call, BusReply::Unreachable), Status::Unreachable);
    assert_eq!(
        session.conclude_dispatch(&call, BusReply::Answered(3)).dispatch_error(),
        Some(BridgeError::DispatchCallFailure)
    );
    assert_eq!(Status::Success.dispatch_error(), None);
}

#[test]
fn registration_with_empty_entity_name_fails_the_session() {
    let mut session = Session::open(local_bus());
    let nameless = ClientIdentity::new("org.example".to_string(), String::new(), 1);
    assert!(!nameless.is_valid());
    let attempt = session.begin_registration(&nameless, ClientToken::new(1), 0);
    assert_eq!(attempt.unwrap_err(), Status::MalformedIdentity);
    assert_eq!(session.failure(), Some(BridgeError::RegistrationFailure));
    let again = session.begin_registration(&glue_identity(), ClientToken::new(1), 0);
    assert_eq!(again.unwrap_err(), Status::SessionUnusable);
}

#[test]
fn registration_without_message_fails_the_session() {
    let mut session = Session::open(local_bus());
    let attempt = session.begin_registration_with(
        &glue_identity(),
        Err(Status::MalformedIdentity),
        ClientToken::new(1),
        0,
    );
    assert_eq!(attempt.unwrap_err(), Status::MalformedIdentity);
    assert_eq!(session.failure(), Some(BridgeError::RegistrationFailure));
}

#[test]
fn registration_with_message_carries_it() {
    let mut session = Session::open(local_bus());
    let call = session
        .begin_registration_with(&glue_identity(), Ok(vec![1, 2, 3]), ClientToken::new(4), 9)
        .unwrap();
    assert_eq!(call.entity, vec![1, 2, 3]);
    assert_eq!(call.token, ClientToken::new(4));
    assert_eq!(call.flags, 9);
    assert_eq!(
        session.current_phase(),
        Phase::Registering(Locality::Local, ClientToken::new(4))
    );
}

#[test]
fn rejected_registration_fails_the_session() {
    let token = ClientToken::new(7);
    let mut session = Session::open(local_bus());
    session.begin_registration(&glue_identity(), token, 0).unwrap();
    let status = session.conclude_registration(token, BusReply::Answered(6));
    assert_eq!(status, Status::Rejected(6));
    assert_eq!(status.registration_error(), Some(BridgeError::RegistrationFailure));
    assert_eq!(session.failure(), Some(BridgeError::RegistrationFailure));
    assert_eq!(
        ControlLoop::for_session(&session, 0, 100).unwrap_err(),
        BridgeError::RegistrationFailure
    );
    assert_eq!(
        session.enable_dispatching(&good_topic(), 0, token).unwrap_err(),
        Status::SessionUnusable
    );
}

#[test]
fn unreachable_bus_fails_the_registration() {
    let token = ClientToken::new(7);
    let mut session = Session::open(local_bus());
    session.begin_registration(&glue_identity(), token, 0).unwrap();
    assert_eq!(session.conclude_registration(token, BusReply::Unreachable), Status::Unreachable);
    assert_eq!(session.failure(), Some(BridgeError::RegistrationFailure));
}

#[test]
fn second_registration_is_refused_and_changes_nothing() {
    let token = ClientToken::new(7);
    let mut session = Session::open(local_bus());
    session.begin_registration(&glue_identity(), token, 0).unwrap();
    let second = session.begin_registration(&glue_identity(), token, 0);
    assert_eq!(second.unwrap_err(), Status::AlreadyRegistered);
    assert_eq!(session.current_phase(), Phase::Registering(Locality::Local, token));
    assert_eq!(session.conclude_registration(token, BusReply::Answered(0)), Status::Success);
    let third = session.begin_registration(&glue_identity(), ClientToken::new(8), 0);
    assert_eq!(third.unwrap_err(), Status::AlreadyRegistered);
    assert_eq!(
        session.conclude_registration(token, BusReply::Answered(0)),
        Status::AlreadyRegistered
    );
    assert_eq!(session.current_phase(), Phase::Registered(Locality::Local, token));
}

#[test]
fn reply_for_another_token_changes_nothing() {
    let token = ClientToken::new(7);
    let mut session = Session::open(local_bus());
    assert_eq!(
        session.conclude_registration(token, BusReply::Answered(0)),
        Status::Unauthorized
    );
    session.begin_registration(&glue_identity(), token, 0).unwrap();
    assert_eq!(
        session.conclude_registration(ClientToken::new(8), BusReply::Answered(0)),
        Status::Unauthorized
    );
    assert_eq!(session.current_phase(), Phase::Registering(Locality::Local, token));
}

#[test]
fn loop_needs_concluded_registration() {
    let token = ClientToken::new(7);
    let mut session = Session::open(local_bus());
    assert_eq!(
        ControlLoop::for_session(&session, 0, 100).unwrap_err(),
        BridgeError::RegistrationFailure
    );
    session.begin_registration(&glue_identity(), token, 0).unwrap();
    assert_eq!(
        ControlLoop::for_session(&session, 0, 100).unwrap_err(),
        BridgeError::RegistrationFailure
    );
    session.conclude_registration(token, BusReply::Answered(0));
    let made = ControlLoop::for_session(&session, 3, 100).unwrap();
    assert_eq!(made.token(), token);
    assert_eq!(made.flags(), 3);
    assert_eq!(made.interval_ms(), 100);
    assert_eq!(made.topic_count(), 0);
}

#[test]
fn status_from_reply() {
    assert_eq!(Status::from_reply(BusReply::Answered(0)), Status::Success);
    assert_eq!(Status::from_reply(BusReply::Answered(7)), Status::Rejected(7));
    assert_eq!(Status::from_reply(BusReply::Answered(-1)), Status::Rejected(-1));
    assert_eq!(Status::from_reply(BusReply::Unreachable), Status::Unreachable);
    assert!(Status::Success.is_ok());
    assert!(!Status::InvalidTarget.is_ok());
    assert!(!Status::Rejected(7).is_ok());
}

#[test]
fn tokens_match_by_identifier() {
    let a = ClientToken::new(1);
    assert_eq!(a.id(), 1);
    assert!(a.matches(&ClientToken::new(1)));
    assert!(!a.matches(&ClientToken::new(2)));
}
