use humanophone::protocol::{
    ChordDescriptor, ClientToServer, ConsumerToServer, Frame, NoteSet, PublisherToServer,
    ServerToConsumer, ServerToPublisher,
};
use humanophone::wire::{
    client_frame, consumer_frame, decode_consumer_to_server, decode_publisher_to_server,
    decode_server_to_consumer, decode_server_to_publisher, encode_client_to_server,
    encode_consumer_to_server, encode_publisher_to_server, encode_server_to_consumer,
    encode_server_to_publisher, publisher_frame, ToMessage, Undecodable,
};

fn notes(pitches: &[u8]) -> NoteSet {
    let mut set = NoteSet::new();
    for pitch in pitches {
        set.insert(*pitch);
    }
    set
}

fn chord() -> ChordDescriptor {
    ChordDescriptor(
        "{\"root\":{\"octave\":\"Four\",\"named_pitch\":\"AFlat\"},\"modifiers\":[\"Sus4\"]}"
            .to_string(),
    )
}

#[test]
fn lib_serializes_announce() {
    let message = ConsumerToServer::IAmConsumer { id: "Hello there".to_string() };
    let text = encode_consumer_to_server(&message);
    println!("{}", text);
    assert_eq!(text, "{\"IAmConsumer\":{\"id\":\"Hello there\"}}");
}

#[test]
fn lib_serializes_piano_announce() {
    let message = PublisherToServer::IAmPublisher { id: "Hello there".to_string() };
    let text = encode_publisher_to_server(&message);
    println!("{}", text);
    assert_eq!(text, "{\"IAmPublisher\":{\"id\":\"Hello there\"}}");
}

#[test]
fn lib_serializes_piano_chord() {
    let message = PublisherToServer::PublishChord(chord());
    let text = encode_publisher_to_server(&message);
    println!("{:?}", text);
    assert_eq!(text, format!("{{\"PublishChord\":{}}}", chord().0));
}

#[test]
fn serializes_piano_pitches() {
    let message = PublisherToServer::PublishPitches(notes(&[57, 60]));
    let text = encode_publisher_to_server(&message);
    println!("{:?}", text);
    assert_eq!(text, "{\"PublishPitches\":[57,60]}");
}

#[test]
fn every_publisher_message_has_its_text() {
    assert_eq!(
        encode_publisher_to_server(&PublisherToServer::ProtocolVersion(1)),
        "{\"PublisherProtocolVersion\":1}"
    );
    assert_eq!(
        encode_publisher_to_server(&PublisherToServer::ProtocolVersion(u32::MAX)),
        "{\"PublisherProtocolVersion\":4294967295}"
    );
    assert_eq!(encode_publisher_to_server(&PublisherToServer::PublishSilence), "\"PublishSilence\"");
    assert_eq!(encode_publisher_to_server(&PublisherToServer::Ping), "\"Ping\"");
    assert_eq!(
        encode_publisher_to_server(&PublisherToServer::PublishPitches(NoteSet::new())),
        "{\"PublishPitches\":[]}"
    );
    assert_eq!(
        encode_publisher_to_server(&PublisherToServer::PublishPitches(notes(&[0, 9, 10, 127]))),
        "{\"PublishPitches\":[0,9,10,127]}"
    );
}

#[test]
fn every_other_message_has_its_text() {
    assert_eq!(encode_server_to_publisher(&ServerToPublisher::Pong), "\"Pong\"");
    assert_eq!(
        encode_server_to_publisher(&ServerToPublisher::AlreadyIdentified),
        "\"AlreadyIdentified\""
    );
    assert_eq!(
        encode_server_to_publisher(&ServerToPublisher::ProtocolError("no".to_string())),
        "{\"ProtocolError\":\"no\"}"
    );
    assert_eq!(
        encode_consumer_to_server(&ConsumerToServer::ProtocolVersion(1)),
        "{\"ConsumerProtocolVersion\":1}"
    );
    assert_eq!(encode_consumer_to_server(&ConsumerToServer::Ping), "\"Ping\"");
    assert_eq!(encode_server_to_consumer(&ServerToConsumer::Silence), "\"Silence\"");
    assert_eq!(encode_server_to_consumer(&ServerToConsumer::Pong), "\"Pong\"");
    assert_eq!(
        encode_server_to_consumer(&ServerToConsumer::PitchesEvent(notes(&[60, 64, 67]))),
        "{\"PitchesEvent\":[60,64,67]}"
    );
    assert_eq!(
        encode_server_to_consumer(&ServerToConsumer::ChordEvent(ChordDescriptor("7".to_string()))),
        "{\"ChordEvent\":7}"
    );
    assert_eq!(
        encode_client_to_server(&ClientToServer::Consumer(ConsumerToServer::Ping)),
        "\"Ping\""
    );
}

#[test]
fn strings_are_escaped() {
    let message =
        PublisherToServer::IAmPublisher { id: "a\"b\\c\nd\u{1f}e\u{7f}\u{e9}\u{1F3B9}".to_string() };
    let text = encode_publisher_to_server(&message);
    assert_eq!(
        text,
        "{\"IAmPublisher\":{\"id\":\"a\\\"b\\\\c\\u000ad\\u001fe\u{7f}\u{e9}\u{1F3B9}\"}}"
    );
    assert_eq!(decode_publisher_to_server(&text), Ok(message));
}

#[test]
fn publisher_messages_round_trip() {
    let messages = vec![
        PublisherToServer::IAmPublisher { id: String::new() },
        PublisherToServer::IAmPublisher { id: "Hello there".to_string() },
        PublisherToServer::IAmPublisher { id: "\"}}".to_string() },
        PublisherToServer::ProtocolVersion(0),
        PublisherToServer::ProtocolVersion(1),
        PublisherToServer::ProtocolVersion(10),
        PublisherToServer::ProtocolVersion(u32::MAX),
        PublisherToServer::PublishChord(chord()),
        PublisherToServer::PublishChord(ChordDescriptor(String::new())),
        PublisherToServer::PublishChord(ChordDescriptor("}".to_string())),
        PublisherToServer::PublishPitches(NoteSet::new()),
        PublisherToServer::PublishPitches(notes(&[57, 60])),
        PublisherToServer::PublishPitches(notes(&[0, 1, 2, 125, 126, 127])),
        PublisherToServer::PublishSilence,
        PublisherToServer::Ping,
    ];
    for message in messages {
        let text = encode_publisher_to_server(&message);
        assert_eq!(decode_publisher_to_server(&text), Ok(message));
    }
}

#[test]
fn all_pitches_round_trip() {
    let mut all = NoteSet::new();
    for pitch in 0..128 {
        all.insert(pitch);
        let message = ServerToConsumer::PitchesEvent(all);
        let text = encode_server_to_consumer(&message);
        assert_eq!(decode_server_to_consumer(&text), Ok(message));
    }
    assert_eq!(all.id_mask(), u128::MAX);
}

#[test]
fn other_messages_round_trip() {
    for message in [
        ServerToPublisher::Pong,
        ServerToPublisher::AlreadyIdentified,
        ServerToPublisher::ProtocolError("Only text messages allowed".to_string()),
        ServerToPublisher::ProtocolError("\u{0}\u{1}\t\r\n".to_string()),
    ] {
        let text = encode_server_to_publisher(&message);
        assert_eq!(decode_server_to_publisher(&text), Ok(message));
    }
    for message in [
        ConsumerToServer::IAmConsumer { id: "I want some chords".to_string() },
        ConsumerToServer::ProtocolVersion(1),
        ConsumerToServer::Ping,
    ] {
        let text = encode_consumer_to_server(&message);
        assert_eq!(decode_consumer_to_server(&text), Ok(message));
    }
    for message in [
        ServerToConsumer::ChordEvent(chord()),
        ServerToConsumer::PitchesEvent(notes(&[60, 64, 67])),
        ServerToConsumer::Silence,
        ServerToConsumer::Pong,
    ] {
        let text = encode_server_to_consumer(&message);
        assert_eq!(decode_server_to_consumer(&text), Ok(message));
    }
}

#[test]
fn texts_that_are_no_message_are_refused() {
    for text in [
        "",
        " ",
        "Ping",
        "\"Ping\" ",
        " \"Ping\"",
        "\"ping\"",
        "\"Pong\"",
        "{}",
        "null",
        "{\"Ping\":null}",
        "{\"PublisherProtocolVersion\":}",
        "{\"PublisherProtocolVersion\":01}",
        "{\"PublisherProtocolVersion\":+1}",
        "{\"PublisherProtocolVersion\":1.0}",
        "{\"PublisherProtocolVersion\":4294967296}",
        "{\"PublisherProtocolVersion\": 1}",
        "{\"ConsumerProtocolVersion\":1}",
        "{\"IAmPublisher\":{\"id\":\"a\"b\"}}",
        "{\"IAmPublisher\":{\"id\":\"a\\\"}}",
        "{\"IAmPublisher\":{\"id\":\"a\\nb\"}}",
        "{\"IAmPublisher\":{\"id\":\"a\nb\"}}",
        "{\"IAmPublisher\":{\"id\":\"\\u0041\"}}",
        "{\"IAmPublisher\":{\"id\":\"\\u000A\"}}",
        "{\"IAmPublisher\":{\"id\":\"a\"}",
        "{\"IAmConsumer\":{\"id\":\"a\"}}",
        "{\"PublishPitches\":[60,57]}",
        "{\"PublishPitches\":[57,57]}",
        "{\"PublishPitches\":[57,]}",
        "{\"PublishPitches\":[,57]}",
        "{\"PublishPitches\":[128]}",
        "{\"PublishPitches\":[057]}",
        "{\"PublishPitches\":[57, 60]}",
        "{\"PublishPitches\":57}",
        "{\"PublishChord\":1",
    ] {
        assert_eq!(decode_publisher_to_server(text), Err(Undecodable), "{:?}", text);
    }
    assert_eq!(decode_server_to_publisher("\"Ping\""), Err(Undecodable));
    assert_eq!(decode_server_to_publisher("{\"ProtocolError\":no}"), Err(Undecodable));
    assert_eq!(decode_consumer_to_server("\"PublishSilence\""), Err(Undecodable));
    assert_eq!(decode_server_to_consumer("\"PublishSilence\""), Err(Undecodable));
    assert_eq!(decode_server_to_consumer("{\"PitchesEvent\":[1,2,3,]}"), Err(Undecodable));
}

#[test]
fn client_frames_are_read_by_role() {
    assert_eq!(
        client_frame("{\"PublisherProtocolVersion\":1}"),
        Frame::Message(ClientToServer::Publisher(PublisherToServer::ProtocolVersion(1)))
    );
    assert_eq!(
        client_frame("{\"ConsumerProtocolVersion\":1}"),
        Frame::Message(ClientToServer::Consumer(ConsumerToServer::ProtocolVersion(1)))
    );
    assert_eq!(
        client_frame("{\"IAmConsumer\":{\"id\":\"c\"}}"),
        Frame::Message(ClientToServer::Consumer(ConsumerToServer::IAmConsumer {
            id: "c".to_string()
        }))
    );
    assert_eq!(
        client_frame("\"Ping\""),
        Frame::Message(ClientToServer::Publisher(PublisherToServer::Ping))
    );
    assert_eq!(client_frame("\"Pong\""), Frame::Undecodable);
    assert_eq!(client_frame("{\"ProtocolVersion\":1}"), Frame::Undecodable);
}

#[test]
fn relay_frames_are_read() {
    assert_eq!(publisher_frame("\"Pong\""), Frame::Message(ServerToPublisher::Pong));
    assert_eq!(
        publisher_frame("{\"ProtocolError\":\"Deserialization failed\"}"),
        Frame::Message(ServerToPublisher::ProtocolError("Deserialization failed".to_string()))
    );
    assert_eq!(publisher_frame("\"Silence\""), Frame::Undecodable);
    assert_eq!(consumer_frame("\"Silence\""), Frame::Message(ServerToConsumer::Silence));
    assert_eq!(
        consumer_frame("{\"ChordEvent\":{\"x\":1}}"),
        Frame::Message(ServerToConsumer::ChordEvent(ChordDescriptor("{\"x\":1}".to_string())))
    );
    assert_eq!(
        consumer_frame("{\"ChordEvent\":{\"x\":1} }"),
        Frame::Message(ServerToConsumer::ChordEvent(ChordDescriptor("{\"x\":1} ".to_string())))
    );
    assert_eq!(consumer_frame("{\"ChordEvent\":{\"x\":1}} "), Frame::Undecodable);
    assert_eq!(consumer_frame("{\"ChordEvent\" :1}"), Frame::Undecodable);
    assert_eq!(consumer_frame("\"AlreadyIdentified\""), Frame::Undecodable);
}

#[test]
fn serializes_announce() {
    let message = ConsumerToServer::IAmConsumer { id: "Hello there".to_string() };
    println!("{}", message.to_message());
    assert_eq!(message.to_message(), encode_consumer_to_server(&message));
}

#[test]
fn serializes_piano_announce() {
    let message = PublisherToServer::IAmPublisher { id: "Hello there".to_string() };
    println!("{}", message.to_message());
    assert_eq!(message.to_message(), encode_publisher_to_server(&message));
}

#[test]
fn serializes_piano_chord() {
    let mut set = NoteSet::new();
    set.insert(141);
    set.insert(70);
    let message = humanophone::client::publication(set, None);
    println!("{}", message.to_message());
    assert_eq!(message.to_message(), "{\"PublishPitches\":[70]}");
}

#[test]
fn every_message_is_its_own_text() {
    assert_eq!(ServerToPublisher::Pong.to_message(), "\"Pong\"");
    assert_eq!(ServerToConsumer::Silence.to_message(), "\"Silence\"");
    assert_eq!(
        ClientToServer::Publisher(PublisherToServer::ProtocolVersion(1)).to_message(),
        "{\"PublisherProtocolVersion\":1}"
    );
    assert_eq!(
        ClientToServer::Consumer(ConsumerToServer::ProtocolVersion(1)).to_message(),
        "{\"ConsumerProtocolVersion\":1}"
    );
}
