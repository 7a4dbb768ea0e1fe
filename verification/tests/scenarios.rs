use humanophone::client::{
    announce_as_consumer, announce_as_publisher, announce_protocol_version, ConsumerAction,
    ConsumerClient, ConsumerEvent, PublisherAction, PublisherClient, PublisherEvent,
};
use humanophone::hub::{Hub, Received};
use humanophone::outcome::{Outcome, ProtocolViolation, SessionError};
use humanophone::protocol::{
    ChordDescriptor, ClientToServer, ConsumerToServer, Frame, PublisherToServer, Role,
    ServerToConsumer,
};
use humanophone::server::{
    next_delivery, HubDelivery, ServerAction, ServerEvent, ServerSession, SessionState,
};
use humanophone::supervisor::{supervise_with, SupervisorAction, SupervisorEvent};
use humanophone::wire::{
    client_frame, consumer_frame, encode_client_to_server, encode_consumer_to_server,
    encode_publisher_to_server, encode_server_to_consumer,
};

fn sent(session: &mut ServerSession, now: u64, text: &str) -> ServerAction {
    session.step(now, ServerEvent::Frame(client_frame(text)))
}

#[test]
fn published_chord_reaches_a_consumer_that_subscribed_before() {
    let mut hub: Hub<ServerToConsumer> = Hub::new(64);
    let chord = ChordDescriptor("{\"root\":\"C\"}".to_string());

    let mut consumer = ServerSession::new(false);
    let version = encode_client_to_server(&announce_protocol_version(Role::Consumer));
    assert_eq!(sent(&mut consumer, 0, &version), ServerAction::Nothing);
    let identity = encode_consumer_to_server(&announce_as_consumer("C"));
    assert_eq!(
        sent(&mut consumer, 0, &identity),
        ServerAction::Welcome { role: Role::Consumer, id: "C".to_string() }
    );
    let mut handle = hub.subscribe();

    let mut publisher = ServerSession::new(false);
    let version = encode_client_to_server(&announce_protocol_version(Role::Publisher));
    assert_eq!(sent(&mut publisher, 1, &version), ServerAction::Nothing);
    let identity = encode_publisher_to_server(&announce_as_publisher("P"));
    assert_eq!(
        sent(&mut publisher, 1, &identity),
        ServerAction::Welcome { role: Role::Publisher, id: "P".to_string() }
    );
    let publish = encode_publisher_to_server(&PublisherToServer::PublishChord(chord.clone()));
    match sent(&mut publisher, 2, &publish) {
        ServerAction::Publish(event) => assert_eq!(hub.publish(event), 1),
        other => panic!("{:?}", other),
    }

    let delivery = next_delivery(&hub, &mut handle).unwrap();
    assert_eq!(next_delivery(&hub, &mut handle), None);
    let frame = match consumer.step(3, ServerEvent::Hub(delivery)) {
        ServerAction::SendToConsumer(event) => {
            assert_eq!(event, ServerToConsumer::ChordEvent(chord.clone()));
            encode_server_to_consumer(&event)
        },
        other => panic!("{:?}", other),
    };

    let mut client = ConsumerClient::new(false);
    assert_eq!(
        client.step(4, ConsumerEvent::Frame(consumer_frame(&frame))),
        ConsumerAction::Render(ServerToConsumer::ChordEvent(chord))
    );
}

#[test]
fn silent_relay_fails_the_connection_and_the_supervisor_reconnects() {
    let mut client = PublisherClient::new(true);
    assert_eq!(
        client.step(10_000, PublisherEvent::PingTick),
        vec![PublisherAction::Send(PublisherToServer::Ping)]
    );
    let deadline = client.wake_at().unwrap();
    assert_eq!(deadline, 15_000);
    assert_eq!(client.step(deadline - 1, PublisherEvent::Tick), vec![]);
    let failure = Outcome::Failed(SessionError::LivenessTimeout);
    assert_eq!(client.step(deadline, PublisherEvent::Tick), vec![PublisherAction::Close(failure)]);
    for jitter in [0, 100, 250] {
        assert_eq!(
            supervise_with(SupervisorEvent::SessionOver(failure), jitter),
            SupervisorAction::Wait(500 + jitter)
        );
    }
    assert_eq!(supervise_with(SupervisorEvent::Waited, 0), SupervisorAction::Connect);
    assert_eq!(supervise_with(SupervisorEvent::Connected, 0), SupervisorAction::Run);
}

#[test]
fn consumer_that_sends_anything_but_a_ping_is_cut_off() {
    let breach = Outcome::Failed(SessionError::Protocol(ProtocolViolation::PingExpected));
    for text in [
        "\"PublishSilence\"",
        "{\"PublishChord\":1}",
        "{\"ConsumerProtocolVersion\":1}",
        "{\"IAmConsumer\":{\"id\":\"C\"}}",
        "\"Pong\"",
        "",
        "ping",
    ] {
        let mut session = ServerSession::new(true);
        sent(&mut session, 0, "{\"ConsumerProtocolVersion\":1}");
        sent(&mut session, 0, "{\"IAmConsumer\":{\"id\":\"C\"}}");
        assert_eq!(session.state(), SessionState::Active(Role::Consumer));
        assert_eq!(sent(&mut session, 1, text), ServerAction::Close(breach), "{:?}", text);
        assert_eq!(session.state(), SessionState::Closed(breach));
    }
    let mut session = ServerSession::new(true);
    sent(&mut session, 0, "{\"ConsumerProtocolVersion\":1}");
    sent(&mut session, 0, "{\"IAmConsumer\":{\"id\":\"C\"}}");
    assert_eq!(
        session.step(1, ServerEvent::Frame(Frame::NonText)),
        ServerAction::Close(breach)
    );
    let mut session = ServerSession::new(true);
    sent(&mut session, 0, "{\"ConsumerProtocolVersion\":1}");
    sent(&mut session, 0, "{\"IAmConsumer\":{\"id\":\"C\"}}");
    assert_eq!(
        sent(&mut session, 1, "\"Ping\""),
        ServerAction::SendToConsumer(ServerToConsumer::Pong)
    );
}

#[test]
fn valid_handshakes_become_active_and_no_others() {
    let firsts = [
        ("{\"PublisherProtocolVersion\":1}", true),
        ("{\"ConsumerProtocolVersion\":1}", true),
        ("{\"PublisherProtocolVersion\":2}", false),
        ("{\"IAmPublisher\":{\"id\":\"P\"}}", false),
        ("\"Ping\"", false),
        ("garbage", false),
    ];
    let seconds = [
        ("{\"IAmPublisher\":{\"id\":\"P\"}}", Some(Role::Publisher)),
        ("{\"IAmConsumer\":{\"id\":\"C\"}}", Some(Role::Consumer)),
        ("{\"PublisherProtocolVersion\":1}", None),
        ("\"Ping\"", None),
        ("\"PublishSilence\"", None),
        ("garbage", None),
    ];
    for (first, version_ok) in firsts {
        for (second, role) in seconds {
            let mut session = ServerSession::new(false);
            sent(&mut session, 0, first);
            assert_eq!(session.role(), None);
            sent(&mut session, 1, second);
            let expected = if version_ok { role } else { None };
            assert_eq!(session.role(), expected, "{:?} {:?}", first, second);
            if expected.is_none() {
                assert!(matches!(
                    session.state(),
                    SessionState::Closed(Outcome::Failed(SessionError::Protocol(_)))
                ));
            }
        }
    }
}

#[test]
fn events_of_one_publisher_arrive_in_their_order() {
    let mut hub: Hub<ServerToConsumer> = Hub::new(8);
    let mut first = hub.subscribe();
    let mut second = hub.subscribe();
    let mut publisher = ServerSession::new(false);
    sent(&mut publisher, 0, "{\"PublisherProtocolVersion\":1}");
    sent(&mut publisher, 0, "{\"IAmPublisher\":{\"id\":\"P\"}}");
    let texts = [
        "{\"PublishChord\":1}",
        "\"PublishSilence\"",
        "{\"PublishChord\":2}",
        "{\"PublishPitches\":[1,2]}",
    ];
    let mut published = Vec::new();
    for text in texts {
        match sent(&mut publisher, 1, text) {
            ServerAction::Publish(event) => {
                published.push(event.clone());
                assert_eq!(hub.publish(event), 2);
            },
            other => panic!("{:?}", other),
        }
    }
    for handle in [&mut first, &mut second] {
        let mut seen = Vec::new();
        while let Received::Event(event) = hub.recv(handle) {
            seen.push(event.clone());
        }
        assert_eq!(seen, published);
    }
}

#[test]
fn consumer_client_drops_a_relay_that_sends_nonsense() {
    let mut client = ConsumerClient::new(false);
    assert_eq!(
        client.step(0, ConsumerEvent::Frame(consumer_frame("{\"ChordEvent\"}"))),
        ConsumerAction::Close(Outcome::Failed(SessionError::Protocol(ProtocolViolation::Malformed)))
    );
    assert_eq!(
        client_frame("{\"IAmPublisher\":{\"id\":\"P\"}}"),
        Frame::Message(ClientToServer::Publisher(PublisherToServer::IAmPublisher {
            id: "P".to_string()
        }))
    );
    assert_eq!(
        client_frame("{\"ConsumerProtocolVersion\":1}"),
        Frame::Message(ClientToServer::Consumer(ConsumerToServer::ProtocolVersion(1)))
    );
}

#[test]
fn slow_consumer_is_told_of_its_loss_and_goes_on() {
    let mut hub: Hub<ServerToConsumer> = Hub::new(2);
    let mut handle = hub.subscribe();
    let mut session = ServerSession::new(false);
    sent(&mut session, 0, "{\"ConsumerProtocolVersion\":1}");
    sent(&mut session, 0, "{\"IAmConsumer\":{\"id\":\"C\"}}");
    for number in 1..=5 {
        hub.publish(ServerToConsumer::ChordEvent(ChordDescriptor(format!("{}", number))));
    }
    let lost = next_delivery(&hub, &mut handle).unwrap();
    assert_eq!(lost, HubDelivery::Lagged(3));
    assert_eq!(session.step(1, ServerEvent::Hub(lost)), ServerAction::Nothing);
    assert_eq!(session.state(), SessionState::Active(Role::Consumer));
    for number in 4..=5 {
        let delivery = next_delivery(&hub, &mut handle).unwrap();
        assert_eq!(
            session.step(2, ServerEvent::Hub(delivery)),
            ServerAction::SendToConsumer(ServerToConsumer::ChordEvent(ChordDescriptor(format!(
                "{}",
                number
            ))))
        );
    }
    assert_eq!(next_delivery(&hub, &mut handle), None);
}
