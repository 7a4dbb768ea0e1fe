use humanophone::outcome::{Outcome, ProtocolViolation, SessionError};
use humanophone::protocol::{
    ChordDescriptor, ClientToServer, ConsumerToServer, Frame, NoteSet, PublisherToServer, Role,
    ServerToConsumer, ServerToPublisher,
};
use humanophone::server::{
    determine_protocol_version, handle_consumer_message, handle_message, HubDelivery, Response,
    ServerAction, ServerEvent, ServerSession, SessionState,
};

fn publisher(message: PublisherToServer) -> Frame<ClientToServer> {
    Frame::Message(ClientToServer::Publisher(message))
}

fn consumer(message: ConsumerToServer) -> Frame<ClientToServer> {
    Frame::Message(ClientToServer::Consumer(message))
}

fn frame(message: Frame<ClientToServer>) -> ServerEvent {
    ServerEvent::Frame(message)
}

fn active(role: Role, pingpong: bool) -> ServerSession {
    let mut session = ServerSession::new(pingpong);
    let version = match role {
        Role::Publisher => publisher(PublisherToServer::ProtocolVersion(1)),
        Role::Consumer => consumer(ConsumerToServer::ProtocolVersion(1)),
    };
    assert_eq!(session.step(0, frame(version)), ServerAction::Nothing);
    let identity = match role {
        Role::Publisher => publisher(PublisherToServer::IAmPublisher { id: "P".to_string() }),
        Role::Consumer => consumer(ConsumerToServer::IAmConsumer { id: "C".to_string() }),
    };
    let id = match role {
        Role::Publisher => "P",
        Role::Consumer => "C",
    };
    assert_eq!(
        session.step(0, frame(identity)),
        ServerAction::Welcome { role, id: id.to_string() }
    );
    assert_eq!(session.state(), SessionState::Active(role));
    session
}

fn closed(violation: ProtocolViolation) -> Outcome {
    Outcome::Failed(SessionError::Protocol(violation))
}

#[test]
fn version_is_read_from_either_role() {
    assert_eq!(
        determine_protocol_version(&publisher(PublisherToServer::ProtocolVersion(1))),
        Ok(1)
    );
    assert_eq!(
        determine_protocol_version(&consumer(ConsumerToServer::ProtocolVersion(7))),
        Ok(7)
    );
    assert_eq!(
        determine_protocol_version(&publisher(PublisherToServer::Ping)),
        Err(ProtocolViolation::VersionExpected)
    );
    assert_eq!(
        determine_protocol_version(&Frame::Undecodable),
        Err(ProtocolViolation::VersionExpected)
    );
    assert_eq!(determine_protocol_version(&Frame::NonText), Err(ProtocolViolation::VersionExpected));
}

#[test]
fn fresh_session_awaits_the_version() {
    let session = ServerSession::new(true);
    assert_eq!(session.state(), SessionState::AwaitingVersion);
    assert_eq!(session.role(), None);
    assert_eq!(session.wake_at(), None);
}

#[test]
fn handshake_of_a_publisher() {
    let session = active(Role::Publisher, false);
    assert_eq!(session.role(), Some(Role::Publisher));
}

#[test]
fn handshake_of_a_consumer() {
    let session = active(Role::Consumer, true);
    assert_eq!(session.role(), Some(Role::Consumer));
}

#[test]
fn handshake_takes_the_version_of_the_other_role() {
    let mut session = ServerSession::new(false);
    session.step(0, frame(consumer(ConsumerToServer::ProtocolVersion(1))));
    assert_eq!(session.state(), SessionState::AwaitingIdentity);
    let action = session.step(0, frame(publisher(PublisherToServer::IAmPublisher {
        id: "P".to_string(),
    })));
    assert_eq!(action, ServerAction::Welcome { role: Role::Publisher, id: "P".to_string() });
}

#[test]
fn wrong_version_closes_the_connection() {
    for version in [0, 2, u32::MAX] {
        let mut session = ServerSession::new(false);
        let action = session.step(0, frame(publisher(PublisherToServer::ProtocolVersion(version))));
        assert_eq!(action, ServerAction::Close(closed(ProtocolViolation::VersionMismatch)));
        assert_eq!(
            session.state(),
            SessionState::Closed(closed(ProtocolViolation::VersionMismatch))
        );
    }
}

#[test]
fn anything_but_a_version_first_closes_the_connection() {
    for first in [
        publisher(PublisherToServer::IAmPublisher { id: "P".to_string() }),
        consumer(ConsumerToServer::IAmConsumer { id: "C".to_string() }),
        publisher(PublisherToServer::Ping),
        publisher(PublisherToServer::PublishSilence),
        Frame::Undecodable,
        Frame::NonText,
    ] {
        let mut session = ServerSession::new(false);
        let action = session.step(0, frame(first));
        assert_eq!(action, ServerAction::Close(closed(ProtocolViolation::VersionExpected)));
        assert_eq!(session.role(), None);
    }
}

#[test]
fn anything_but_an_identity_second_closes_the_connection() {
    for second in [
        publisher(PublisherToServer::ProtocolVersion(1)),
        consumer(ConsumerToServer::Ping),
        publisher(PublisherToServer::PublishPitches(NoteSet::new())),
        Frame::Undecodable,
        Frame::NonText,
    ] {
        let mut session = ServerSession::new(false);
        session.step(0, frame(publisher(PublisherToServer::ProtocolVersion(1))));
        let action = session.step(0, frame(second));
        assert_eq!(action, ServerAction::Close(closed(ProtocolViolation::IdentityExpected)));
        assert_eq!(session.role(), None);
    }
}

#[test]
fn transport_end_during_the_handshake_is_a_failure() {
    let mut session = ServerSession::new(false);
    assert_eq!(
        session.step(0, ServerEvent::TransportClosed),
        ServerAction::Close(Outcome::Failed(SessionError::Transport))
    );
    let mut session = ServerSession::new(false);
    session.step(0, frame(publisher(PublisherToServer::ProtocolVersion(1))));
    assert_eq!(
        session.step(0, ServerEvent::TransportError),
        ServerAction::Close(Outcome::Failed(SessionError::Transport))
    );
}

#[test]
fn publisher_messages_are_answered_or_forwarded() {
    let chord = ChordDescriptor("c".to_string());
    let mut pitches = NoteSet::new();
    pitches.insert(60);
    assert_eq!(
        handle_message(publisher(PublisherToServer::PublishChord(chord.clone()))),
        Response::Forward(ServerToConsumer::ChordEvent(chord))
    );
    assert_eq!(
        handle_message(publisher(PublisherToServer::PublishPitches(pitches))),
        Response::Forward(ServerToConsumer::PitchesEvent(pitches))
    );
    assert_eq!(
        handle_message(publisher(PublisherToServer::PublishSilence)),
        Response::Forward(ServerToConsumer::Silence)
    );
    assert_eq!(
        handle_message(publisher(PublisherToServer::Ping)),
        Response::ReturnToSender(ServerToPublisher::Pong)
    );
    assert_eq!(
        handle_message(consumer(ConsumerToServer::Ping)),
        Response::ReturnToSender(ServerToPublisher::Pong)
    );
    assert_eq!(
        handle_message(publisher(PublisherToServer::IAmPublisher { id: "again".to_string() })),
        Response::ReturnToSender(ServerToPublisher::AlreadyIdentified)
    );
    assert_eq!(
        handle_message(publisher(PublisherToServer::ProtocolVersion(1))),
        Response::ReturnToSender(ServerToPublisher::ProtocolError("Unexpected message".to_string()))
    );
    assert_eq!(
        handle_message(consumer(ConsumerToServer::IAmConsumer { id: "C".to_string() })),
        Response::ReturnToSender(ServerToPublisher::ProtocolError("Unexpected message".to_string()))
    );
    assert_eq!(
        handle_message(Frame::Undecodable),
        Response::ReturnToSender(ServerToPublisher::ProtocolError(
            "Deserialization failed".to_string()
        ))
    );
    assert_eq!(
        handle_message(Frame::NonText),
        Response::ReturnToSender(ServerToPublisher::ProtocolError(
            "Only text messages allowed".to_string()
        ))
    );
}

#[test]
fn consumer_may_only_ping() {
    assert_eq!(handle_consumer_message(&consumer(ConsumerToServer::Ping)), Ok(ServerToConsumer::Pong));
    assert_eq!(
        handle_consumer_message(&publisher(PublisherToServer::Ping)),
        Ok(ServerToConsumer::Pong)
    );
    for other in [
        consumer(ConsumerToServer::ProtocolVersion(1)),
        consumer(ConsumerToServer::IAmConsumer { id: "C".to_string() }),
        publisher(PublisherToServer::PublishSilence),
        Frame::Undecodable,
        Frame::NonText,
    ] {
        assert_eq!(handle_consumer_message(&other), Err(ProtocolViolation::PingExpected));
    }
}

#[test]
fn publisher_session_stays_active_through_errors() {
    let mut session = active(Role::Publisher, true);
    assert_eq!(
        session.step(1, frame(Frame::Undecodable)),
        ServerAction::ReplyToPublisher(ServerToPublisher::ProtocolError(
            "Deserialization failed".to_string()
        ))
    );
    assert_eq!(
        session.step(2, frame(Frame::NonText)),
        ServerAction::ReplyToPublisher(ServerToPublisher::ProtocolError(
            "Only text messages allowed".to_string()
        ))
    );
    assert_eq!(
        session.step(3, frame(publisher(PublisherToServer::IAmPublisher { id: "P".to_string() }))),
        ServerAction::ReplyToPublisher(ServerToPublisher::AlreadyIdentified)
    );
    assert_eq!(
        session.step(4, frame(publisher(PublisherToServer::Ping))),
        ServerAction::ReplyToPublisher(ServerToPublisher::Pong)
    );
    assert_eq!(
        session.step(5, frame(publisher(PublisherToServer::PublishSilence))),
        ServerAction::Publish(ServerToConsumer::Silence)
    );
    assert_eq!(session.state(), SessionState::Active(Role::Publisher));
    assert_eq!(session.step(6, ServerEvent::TransportClosed), ServerAction::Close(Outcome::Ended));
    assert_eq!(session.state(), SessionState::Closed(Outcome::Ended));
}

#[test]
fn publisher_session_ignores_the_hub() {
    let mut session = active(Role::Publisher, false);
    assert_eq!(
        session.step(1, ServerEvent::Hub(HubDelivery::Event(ServerToConsumer::Silence))),
        ServerAction::Nothing
    );
}

#[test]
fn every_frame_of_a_publisher_resets_the_watchdog() {
    let mut session = active(Role::Publisher, true);
    assert_eq!(session.wake_at(), None);
    session.step(1_000, frame(Frame::Undecodable));
    assert_eq!(session.wake_at(), Some(16_000));
    session.step(9_000, frame(publisher(PublisherToServer::PublishSilence)));
    assert_eq!(session.wake_at(), Some(24_000));
    assert_eq!(session.step(16_000, ServerEvent::Tick), ServerAction::Nothing);
    assert_eq!(session.step(23_999, ServerEvent::Tick), ServerAction::Nothing);
    assert_eq!(
        session.step(24_000, ServerEvent::Tick),
        ServerAction::Close(Outcome::Failed(SessionError::LivenessTimeout))
    );
    assert_eq!(session.role(), None);
    assert_eq!(session.wake_at(), None);
}

#[test]
fn silence_is_no_failure_without_pingpong() {
    let mut session = active(Role::Publisher, false);
    session.step(0, frame(publisher(PublisherToServer::Ping)));
    assert_eq!(session.wake_at(), None);
    assert_eq!(session.step(1_000_000, ServerEvent::Tick), ServerAction::Nothing);
    assert_eq!(session.state(), SessionState::Active(Role::Publisher));
}

#[test]
fn consumer_session_forwards_hub_events_and_answers_pings() {
    let mut session = active(Role::Consumer, true);
    let chord = ServerToConsumer::ChordEvent(ChordDescriptor("c".to_string()));
    assert_eq!(
        session.step(1, ServerEvent::Hub(HubDelivery::Event(chord.clone()))),
        ServerAction::SendToConsumer(chord)
    );
    assert_eq!(session.step(2, ServerEvent::Hub(HubDelivery::Lagged(3))), ServerAction::Nothing);
    assert_eq!(session.wake_at(), None);
    assert_eq!(
        session.step(100, frame(consumer(ConsumerToServer::Ping))),
        ServerAction::SendToConsumer(ServerToConsumer::Pong)
    );
    assert_eq!(session.wake_at(), Some(15_100));
    assert_eq!(session.state(), SessionState::Active(Role::Consumer));
    assert_eq!(
        session.step(15_100, ServerEvent::Tick),
        ServerAction::Close(Outcome::Failed(SessionError::LivenessTimeout))
    );
}

#[test]
fn consumer_session_ends_normally_when_the_transport_closes() {
    let mut session = active(Role::Consumer, false);
    assert_eq!(session.step(1, ServerEvent::TransportClosed), ServerAction::Close(Outcome::Ended));
    let mut session = active(Role::Consumer, false);
    assert_eq!(
        session.step(1, ServerEvent::TransportError),
        ServerAction::Close(Outcome::Failed(SessionError::Transport))
    );
}

#[test]
fn closed_session_does_nothing_more() {
    let mut session = active(Role::Consumer, true);
    session.step(1, ServerEvent::TransportClosed);
    for event in [
        frame(consumer(ConsumerToServer::Ping)),
        ServerEvent::TransportClosed,
        ServerEvent::TransportError,
        ServerEvent::Hub(HubDelivery::Event(ServerToConsumer::Silence)),
        ServerEvent::Tick,
    ] {
        assert_eq!(session.step(2, event), ServerAction::Nothing);
        assert_eq!(session.state(), SessionState::Closed(Outcome::Ended));
    }
}

#[test]
fn relay_of_another_version_and_patience() {
    let mut session = ServerSession::configured(7, true, 100);
    assert_eq!(
        session.step(0, frame(publisher(PublisherToServer::ProtocolVersion(1)))),
        ServerAction::Close(closed(ProtocolViolation::VersionMismatch))
    );
    let mut session = ServerSession::configured(7, true, 100);
    assert_eq!(
        session.step(0, frame(publisher(PublisherToServer::ProtocolVersion(7)))),
        ServerAction::Nothing
    );
    session.step(0, frame(publisher(PublisherToServer::IAmPublisher { id: "P".to_string() })));
    session.step(50, frame(publisher(PublisherToServer::Ping)));
    assert_eq!(session.wake_at(), Some(150));
    assert_eq!(session.step(149, ServerEvent::Tick), ServerAction::Nothing);
    assert_eq!(
        session.step(150, ServerEvent::Tick),
        ServerAction::Close(Outcome::Failed(SessionError::LivenessTimeout))
    );
}
