//! The text of each message, as it travels in one frame.
//!
//! A message with nothing in it is its name between quotes. Any other
//! message is an object with one member, whose name is the message's name:
//! a string with its quotes and backslashes escaped, a number in decimal
//! digits, the pitches of a set in rising order, or a chord as it is.
//!
//! Each message has one text. A reader takes a text only in that form: it
//! reads what stands between the fixed beginning and the fixed end of a
//! message, writes the message out again, and takes the text only if that
//! gives the same text. So each text is the text of at most one message.

use crate::pitchlist::{
    lemma_pitches_in_items, pitch_text, pitches_from, read_pitches, write_pitches,
};
use crate::protocol::{
    ChordDescriptor, ClientToServer, ConsumerToServer, ConsumerToServerView, Frame, NoteSet,
    PublisherToServer, PublisherToServerView, ServerToConsumer, ServerToConsumerView,
    ServerToPublisher, ServerToPublisherView,
};
use crate::text::{
    chars_of, decimal, escaped, lemma_between, lemma_number_of_decimal, lemma_unescaped_of_escaped,
    push_str, read_escaped, read_number, same_text, strip, text_of, write_escaped, write_number,
};
use vstd::prelude::*;

verus! {

/// What a reader says of a text that is no message.
#[derive(Clone, Copy, Debug, PartialEq, Eq, Structural)]
pub struct Undecodable;

/// What can be written as the text of one frame.
pub trait ToMessage {
    /// The text of the message.
    spec fn message_text(&self) -> Seq<char>;

    /// Writes the message as the text of one frame.
    fn to_message(&self) -> (text: String)
        ensures
            text@ == self.message_text(),
    ;
}

/// Where the text between a head and a tail begins and ends.
spec fn strip_bounds(whole: Seq<char>, head: Seq<char>, tail: Seq<char>) -> (int, int) {
    (head.len() as int, whole.len() - tail.len())
}

/// Reads `chars` as `head`, then the inside of a string, then `tail`.
fn framed_string(chars: &Vec<char>, head: &str, tail: &str) -> (read: Option<String>)
    ensures
        match read {
            Some(text) => chars@ == head@ + escaped(text@) + tail@,
            None => forall|text: Seq<char>| chars@ != head@ + #[trigger] escaped(text) + tail@,
        },
{
    let found = match strip(chars, head, tail) {
        Some((start, end)) => match read_escaped(chars, start, end) {
            Some(inside) => {
                let mut again: Vec<char> = Vec::new();
                push_str(&mut again, head);
                write_escaped(&mut again, &inside);
                push_str(&mut again, tail);
                assert(again@ =~= head@ + escaped(inside@) + tail@);
                if same_text(&again, chars) {
                    assert(inside@.subrange(0, inside.len() as int) =~= inside@);
                    Some(text_of(&inside, 0, inside.len()))
                } else {
                    None
                }
            },
            None => None,
        },
        None => None,
    };
    proof {
        if found.is_none() {
            assert forall|text: Seq<char>| chars@ != head@ + #[trigger] escaped(text) + tail@ by {
                if chars@ == head@ + escaped(text) + tail@ {
                    lemma_unescaped_of_escaped(text);
                    let bounds = strip_bounds(chars@, head@, tail@);
                    lemma_between(
                        head@,
                        escaped(text),
                        chars@.subrange(bounds.0, bounds.1),
                        tail@,
                    );
                }
            }
        }
    }
    found
}

/// Reads `chars` as `head`, then a number of 32 bits, then `tail`.
fn framed_number(chars: &Vec<char>, head: &str, tail: &str) -> (read: Option<u32>)
    ensures
        match read {
            Some(value) => chars@ == head@ + decimal(value as nat) + tail@,
            None => forall|value: u32| chars@ != head@ + #[trigger] decimal(value as nat) + tail@,
        },
{
    let found = match strip(chars, head, tail) {
        Some((start, end)) => match read_number(chars, start, end, 0xffff_ffff) {
            Some(value) => {
                let mut again: Vec<char> = Vec::new();
                push_str(&mut again, head);
                write_number(&mut again, value);
                push_str(&mut again, tail);
                assert(again@ =~= head@ + decimal(value as nat) + tail@);
                if same_text(&again, chars) {
                    Some(value as u32)
                } else {
                    None
                }
            },
            None => None,
        },
        None => None,
    };
    proof {
        if found.is_none() {
            assert forall|value: u32| chars@ != head@ + #[trigger] decimal(value as nat) + tail@ by {
                if chars@ == head@ + decimal(value as nat) + tail@ {
                    lemma_number_of_decimal(value as nat);
                    let bounds = strip_bounds(chars@, head@, tail@);
                    lemma_between(
                        head@,
                        decimal(value as nat),
                        chars@.subrange(bounds.0, bounds.1),
                        tail@,
                    );
                }
            }
        }
    }
    found
}

/// Reads `chars` as `head`, then any text, then `tail`.
fn framed_raw(chars: &Vec<char>, head: &str, tail: &str) -> (read: Option<String>)
    ensures
        match read {
            Some(text) => chars@ == head@ + text@ + tail@,
            None => forall|text: Seq<char>| chars@ != head@ + text + tail@,
        },
{
    match strip(chars, head, tail) {
        Some((start, end)) => Some(text_of(chars, start, end)),
        None => None,
    }
}

/// Reads `chars` as `head`, then pitches with commas between them, then
/// `tail`.
fn framed_pitches(chars: &Vec<char>, head: &str, tail: &str) -> (read: Option<NoteSet>)
    ensures
        match read {
            Some(set) => chars@ == head@ + pitch_text(set@) + tail@,
            None => forall|set: NoteSet| chars@ != head@ + #[trigger] pitch_text(set@) + tail@,
        },
{
    let found = match strip(chars, head, tail) {
        Some((start, end)) => match read_pitches(chars, start, end) {
            Some(set) => {
                let mut again: Vec<char> = Vec::new();
                push_str(&mut again, head);
                write_pitches(&mut again, &set);
                push_str(&mut again, tail);
                assert(again@ =~= head@ + pitch_text(set@) + tail@);
                if same_text(&again, chars) {
                    Some(set)
                } else {
                    None
                }
            },
            None => None,
        },
        None => None,
    };
    proof {
        if found.is_none() {
            assert forall|set: NoteSet| chars@ != head@ + #[trigger] pitch_text(set@) + tail@ by {
                if chars@ == head@ + pitch_text(set@) + tail@ {
                    lemma_pitches_in_items(set@, 0);
                    assert(pitches_from(set@, 0) =~= set@);
                    let bounds = strip_bounds(chars@, head@, tail@);
                    lemma_between(
                        head@,
                        pitch_text(set@),
                        chars@.subrange(bounds.0, bounds.1),
                        tail@,
                    );
                }
            }
        }
    }
    found
}

/// Whether `chars` is the text `whole`.
fn is_text(chars: &Vec<char>, whole: &str) -> (same: bool)
    ensures
        same == (chars@ == whole@),
{
    let expected = chars_of(whole);
    same_text(chars, &expected)
}

/// The text of a message that a publisher sends to the relay.
pub open spec fn publisher_to_server_text(message: PublisherToServerView) -> Seq<char> {
    match message {
        PublisherToServerView::IAmPublisher { id } => "{\"IAmPublisher\":{\"id\":\""@
            + escaped(id) + "\"}}"@,
        PublisherToServerView::ProtocolVersion(inside) => "{\"PublisherProtocolVersion\":"@
            + decimal(inside as nat) + "}"@,
        PublisherToServerView::PublishChord(inside) => "{\"PublishChord\":"@
            + inside + "}"@,
        PublisherToServerView::PublishPitches(inside) => "{\"PublishPitches\":["@
            + pitch_text(inside) + "]}"@,
        PublisherToServerView::PublishSilence => "\"PublishSilence\""@,
        PublisherToServerView::Ping => "\"Ping\""@,
    }
}

/// Writes a message that a publisher sends to the relay.
pub fn encode_publisher_to_server(message: &PublisherToServer) -> (text: String)
    ensures
        text@ == publisher_to_server_text(message@),
{
    let mut out: Vec<char> = Vec::new();
    match message {
        PublisherToServer::IAmPublisher { id } => {
            push_str(&mut out, "{\"IAmPublisher\":{\"id\":\"");
            let chars = chars_of(id.as_str());
            write_escaped(&mut out, &chars);
            push_str(&mut out, "\"}}");
        },
        PublisherToServer::ProtocolVersion(inside) => {
            push_str(&mut out, "{\"PublisherProtocolVersion\":");
            write_number(&mut out, *inside as u64);
            push_str(&mut out, "}");
        },
        PublisherToServer::PublishChord(inside) => {
            push_str(&mut out, "{\"PublishChord\":");
            push_str(&mut out, inside.0.as_str());
            push_str(&mut out, "}");
        },
        PublisherToServer::PublishPitches(inside) => {
            push_str(&mut out, "{\"PublishPitches\":[");
            write_pitches(&mut out, inside);
            push_str(&mut out, "]}");
        },
        PublisherToServer::PublishSilence => {
            push_str(&mut out, "\"PublishSilence\"");
        },
        PublisherToServer::Ping => {
            push_str(&mut out, "\"Ping\"");
        },
    }
    assert(out@ =~= publisher_to_server_text(message@));
    assert(out@.subrange(0, out.len() as int) =~= out@);
    text_of(&out, 0, out.len())
}

impl ToMessage for PublisherToServer {
    open spec fn message_text(&self) -> Seq<char> {
        publisher_to_server_text(self@)
    }

    fn to_message(&self) -> (text: String) {
        encode_publisher_to_server(self)
    }
}

/// Reads a message that a publisher sends to the relay. A text is read as a message
/// if and only if it is that message's text.
pub fn decode_publisher_to_server(text: &str) -> (message: Result<PublisherToServer, Undecodable>)
    ensures
        match message {
            Ok(message) => publisher_to_server_text(message@) == text@,
            Err(_) => forall|message: PublisherToServer| publisher_to_server_text(message@) != text@,
        },
{
    let chars = chars_of(text);
    match framed_string(&chars, "{\"IAmPublisher\":{\"id\":\"", "\"}}") {
        Some(inside) => {
            return Ok(PublisherToServer::IAmPublisher { id: inside });
        },
        None => {},
    }
    match framed_number(&chars, "{\"PublisherProtocolVersion\":", "}") {
        Some(inside) => {
            return Ok(PublisherToServer::ProtocolVersion(inside));
        },
        None => {},
    }
    match framed_raw(&chars, "{\"PublishChord\":", "}") {
        Some(inside) => {
            return Ok(PublisherToServer::PublishChord(ChordDescriptor(inside)));
        },
        None => {},
    }
    match framed_pitches(&chars, "{\"PublishPitches\":[", "]}") {
        Some(inside) => {
            return Ok(PublisherToServer::PublishPitches(inside));
        },
        None => {},
    }
    if is_text(&chars, "\"PublishSilence\"") {
        return Ok(PublisherToServer::PublishSilence);
    }
    if is_text(&chars, "\"Ping\"") {
        return Ok(PublisherToServer::Ping);
    }
    assert forall|message: PublisherToServer| publisher_to_server_text(message@) != text@ by {
        match message {
            PublisherToServer::IAmPublisher { id } => {
                assert(publisher_to_server_text(message@) == "{\"IAmPublisher\":{\"id\":\""@
                    + escaped(id@) + "\"}}"@);
            },
            PublisherToServer::ProtocolVersion(inside) => {
                assert(publisher_to_server_text(message@) == "{\"PublisherProtocolVersion\":"@
                    + decimal(inside as nat) + "}"@);
            },
            PublisherToServer::PublishChord(inside) => {
                assert(publisher_to_server_text(message@) == "{\"PublishChord\":"@
                    + inside@ + "}"@);
            },
            PublisherToServer::PublishPitches(inside) => {
                assert(publisher_to_server_text(message@) == "{\"PublishPitches\":["@
                    + pitch_text(inside@) + "]}"@);
            },
            PublisherToServer::PublishSilence => {},
            PublisherToServer::Ping => {},
        }
    }
    Err(Undecodable)
}

/// The characters by which the texts of two different messages differ.
proof fn lemma_publisher_to_server_marks(message: PublisherToServerView)
    ensures
        match message {
            PublisherToServerView::IAmPublisher { .. } => publisher_to_server_text(message).len() >= 23
                && publisher_to_server_text(message)[0] == '{'
                && publisher_to_server_text(message)[2] == 'I'
                && publisher_to_server_text(message)[9] == 'i',
            PublisherToServerView::ProtocolVersion(_) => publisher_to_server_text(message).len() >= 28
                && publisher_to_server_text(message)[0] == '{'
                && publisher_to_server_text(message)[2] == 'P'
                && publisher_to_server_text(message)[9] == 'e',
            PublisherToServerView::PublishChord(_) => publisher_to_server_text(message).len() >= 16
                && publisher_to_server_text(message)[0] == '{'
                && publisher_to_server_text(message)[2] == 'P'
                && publisher_to_server_text(message)[9] == 'C',
            PublisherToServerView::PublishPitches(_) => publisher_to_server_text(message).len() >= 19
                && publisher_to_server_text(message)[0] == '{'
                && publisher_to_server_text(message)[2] == 'P'
                && publisher_to_server_text(message)[9] == 'P',
            PublisherToServerView::PublishSilence => publisher_to_server_text(message).len() >= 16
                && publisher_to_server_text(message)[0] == '"'
                && publisher_to_server_text(message)[2] == 'u'
                && publisher_to_server_text(message)[9] == 'i',
            PublisherToServerView::Ping => publisher_to_server_text(message).len() >= 6
                && publisher_to_server_text(message)[0] == '"'
                && publisher_to_server_text(message)[2] == 'i',
        },
{
    reveal_strlit("{\"IAmPublisher\":{\"id\":\"");
    reveal_strlit("{\"PublisherProtocolVersion\":");
    reveal_strlit("{\"PublishChord\":");
    reveal_strlit("{\"PublishPitches\":[");
    reveal_strlit("\"PublishSilence\"");
    reveal_strlit("\"Ping\"");
}

/// Two messages that a publisher sends to the relay and that have the same text are
/// the same message. So a message that is written and then read is read as
/// it was written.
pub proof fn lemma_publisher_to_server_round_trip(written: PublisherToServer, read: PublisherToServer)
    requires
        publisher_to_server_text(read@) == publisher_to_server_text(written@),
    ensures
        read@ == written@,
{
    lemma_publisher_to_server_marks(written@);
    lemma_publisher_to_server_marks(read@);
    match (written@, read@) {
        (
            PublisherToServerView::IAmPublisher { id: left },
            PublisherToServerView::IAmPublisher { id: right },
        ) => {
            lemma_between(
                "{\"IAmPublisher\":{\"id\":\""@,
                escaped(left),
                escaped(right),
                "\"}}"@,
            );
            lemma_unescaped_of_escaped(left);
            lemma_unescaped_of_escaped(right);
        },
        (
            PublisherToServerView::ProtocolVersion(left),
            PublisherToServerView::ProtocolVersion(right),
        ) => {
            lemma_between(
                "{\"PublisherProtocolVersion\":"@,
                decimal(left as nat),
                decimal(right as nat),
                "}"@,
            );
            lemma_number_of_decimal(left as nat);
            lemma_number_of_decimal(right as nat);
        },
        (PublisherToServerView::PublishChord(left), PublisherToServerView::PublishChord(right)) => {
            lemma_between(
                "{\"PublishChord\":"@,
                left,
                right,
                "}"@,
            );
        },
        (
            PublisherToServerView::PublishPitches(left),
            PublisherToServerView::PublishPitches(right),
        ) => {
            lemma_between(
                "{\"PublishPitches\":["@,
                pitch_text(left),
                pitch_text(right),
                "]}"@,
            );
            lemma_pitches_in_items(left, 0);
            lemma_pitches_in_items(right, 0);
            assert(pitches_from(left, 0) =~= left);
            assert(pitches_from(right, 0) =~= right);
        },
        _ => {},
    }
}

/// The text of a message that the relay sends to a publisher.
pub open spec fn server_to_publisher_text(message: ServerToPublisherView) -> Seq<char> {
    match message {
        ServerToPublisherView::Pong => "\"Pong\""@,
        ServerToPublisherView::AlreadyIdentified => "\"AlreadyIdentified\""@,
        ServerToPublisherView::ProtocolError(inside) => "{\"ProtocolError\":\""@
            + escaped(inside) + "\"}"@,
    }
}

/// Writes a message that the relay sends to a publisher.
pub fn encode_server_to_publisher(message: &ServerToPublisher) -> (text: String)
    ensures
        text@ == server_to_publisher_text(message@),
{
    let mut out: Vec<char> = Vec::new();
    match message {
        ServerToPublisher::Pong => {
            push_str(&mut out, "\"Pong\"");
        },
        ServerToPublisher::AlreadyIdentified => {
            push_str(&mut out, "\"AlreadyIdentified\"");
        },
        ServerToPublisher::ProtocolError(inside) => {
            push_str(&mut out, "{\"ProtocolError\":\"");
            let chars = chars_of(inside.as_str());
            write_escaped(&mut out, &chars);
            push_str(&mut out, "\"}");
        },
    }
    assert(out@ =~= server_to_publisher_text(message@));
    assert(out@.subrange(0, out.len() as int) =~= out@);
    text_of(&out, 0, out.len())
}

impl ToMessage for ServerToPublisher {
    open spec fn message_text(&self) -> Seq<char> {
        server_to_publisher_text(self@)
    }

    fn to_message(&self) -> (text: String) {
        encode_server_to_publisher(self)
    }
}

/// Reads a message that the relay sends to a publisher. A text is read as a message
/// if and only if it is that message's text.
pub fn decode_server_to_publisher(text: &str) -> (message: Result<ServerToPublisher, Undecodable>)
    ensures
        match message {
            Ok(message) => server_to_publisher_text(message@) == text@,
            Err(_) => forall|message: ServerToPublisher| server_to_publisher_text(message@) != text@,
        },
{
    let chars = chars_of(text);
    if is_text(&chars, "\"Pong\"") {
        return Ok(ServerToPublisher::Pong);
    }
    if is_text(&chars, "\"AlreadyIdentified\"") {
        return Ok(ServerToPublisher::AlreadyIdentified);
    }
    match framed_string(&chars, "{\"ProtocolError\":\"", "\"}") {
        Some(inside) => {
            return Ok(ServerToPublisher::ProtocolError(inside));
        },
        None => {},
    }
    assert forall|message: ServerToPublisher| server_to_publisher_text(message@) != text@ by {
        match message {
            ServerToPublisher::Pong => {},
            ServerToPublisher::AlreadyIdentified => {},
            ServerToPublisher::ProtocolError(inside) => {
                assert(server_to_publisher_text(message@) == "{\"ProtocolError\":\""@
                    + escaped(inside@) + "\"}"@);
            },
        }
    }
    Err(Undecodable)
}

/// The characters by which the texts of two different messages differ.
proof fn lemma_server_to_publisher_marks(message: ServerToPublisherView)
    ensures
        match message {
            ServerToPublisherView::Pong => server_to_publisher_text(message).len() >= 6
                && server_to_publisher_text(message)[0] == '"'
                && server_to_publisher_text(message)[1] == 'P',
            ServerToPublisherView::AlreadyIdentified => server_to_publisher_text(message).len() >= 19
                && server_to_publisher_text(message)[0] == '"'
                && server_to_publisher_text(message)[1] == 'A',
            ServerToPublisherView::ProtocolError(_) => server_to_publisher_text(message).len() >= 18
                && server_to_publisher_text(message)[0] == '{'
                && server_to_publisher_text(message)[1] == '"',
        },
{
    reveal_strlit("\"Pong\"");
    reveal_strlit("\"AlreadyIdentified\"");
    reveal_strlit("{\"ProtocolError\":\"");
}

/// Two messages that the relay sends to a publisher and that have the same text are
/// the same message. So a message that is written and then read is read as
/// it was written.
pub proof fn lemma_server_to_publisher_round_trip(written: ServerToPublisher, read: ServerToPublisher)
    requires
        server_to_publisher_text(read@) == server_to_publisher_text(written@),
    ensures
        read@ == written@,
{
    lemma_server_to_publisher_marks(written@);
    lemma_server_to_publisher_marks(read@);
    match (written@, read@) {
        (ServerToPublisherView::ProtocolError(left), ServerToPublisherView::ProtocolError(right)) => {
            lemma_between(
                "{\"ProtocolError\":\""@,
                escaped(left),
                escaped(right),
                "\"}"@,
            );
            lemma_unescaped_of_escaped(left);
            lemma_unescaped_of_escaped(right);
        },
        _ => {},
    }
}

/// The text of a message that a consumer sends to the relay.
pub open spec fn consumer_to_server_text(message: ConsumerToServerView) -> Seq<char> {
    match message {
        ConsumerToServerView::IAmConsumer { id } => "{\"IAmConsumer\":{\"id\":\""@
            + escaped(id) + "\"}}"@,
        ConsumerToServerView::ProtocolVersion(inside) => "{\"ConsumerProtocolVersion\":"@
            + decimal(inside as nat) + "}"@,
        ConsumerToServerView::Ping => "\"Ping\""@,
    }
}

/// Writes a message that a consumer sends to the relay.
pub fn encode_consumer_to_server(message: &ConsumerToServer) -> (text: String)
    ensures
        text@ == consumer_to_server_text(message@),
{
    let mut out: Vec<char> = Vec::new();
    match message {
        ConsumerToServer::IAmConsumer { id } => {
            push_str(&mut out, "{\"IAmConsumer\":{\"id\":\"");
            let chars = chars_of(id.as_str());
            write_escaped(&mut out, &chars);
            push_str(&mut out, "\"}}");
        },
        ConsumerToServer::ProtocolVersion(inside) => {
            push_str(&mut out, "{\"ConsumerProtocolVersion\":");
            write_number(&mut out, *inside as u64);
            push_str(&mut out, "}");
        },
        ConsumerToServer::Ping => {
            push_str(&mut out, "\"Ping\"");
        },
    }
    assert(out@ =~= consumer_to_server_text(message@));
    assert(out@.subrange(0, out.len() as int) =~= out@);
    text_of(&out, 0, out.len())
}

impl ToMessage for ConsumerToServer {
    open spec fn message_text(&self) -> Seq<char> {
        consumer_to_server_text(self@)
    }

    fn to_message(&self) -> (text: String) {
        encode_consumer_to_server(self)
    }
}

/// Reads a message that a consumer sends to the relay. A text is read as a message
/// if and only if it is that message's text.
pub fn decode_consumer_to_server(text: &str) -> (message: Result<ConsumerToServer, Undecodable>)
    ensures
        match message {
            Ok(message) => consumer_to_server_text(message@) == text@,
            Err(_) => forall|message: ConsumerToServer| consumer_to_server_text(message@) != text@,
        },
{
    let chars = chars_of(text);
    match framed_string(&chars, "{\"IAmConsumer\":{\"id\":\"", "\"}}") {
        Some(inside) => {
            return Ok(ConsumerToServer::IAmConsumer { id: inside });
        },
        None => {},
    }
    match framed_number(&chars, "{\"ConsumerProtocolVersion\":", "}") {
        Some(inside) => {
            return Ok(ConsumerToServer::ProtocolVersion(inside));
        },
        None => {},
    }
    if is_text(&chars, "\"Ping\"") {
        return Ok(ConsumerToServer::Ping);
    }
    assert forall|message: ConsumerToServer| consumer_to_server_text(message@) != text@ by {
        match message {
            ConsumerToServer::IAmConsumer { id } => {
                assert(consumer_to_server_text(message@) == "{\"IAmConsumer\":{\"id\":\""@
                    + escaped(id@) + "\"}}"@);
            },
            ConsumerToServer::ProtocolVersion(inside) => {
                assert(consumer_to_server_text(message@) == "{\"ConsumerProtocolVersion\":"@
                    + decimal(inside as nat) + "}"@);
            },
            ConsumerToServer::Ping => {},
        }
    }
    Err(Undecodable)
}

/// The characters by which the texts of two different messages differ.
proof fn lemma_consumer_to_server_marks(message: ConsumerToServerView)
    ensures
        match message {
            ConsumerToServerView::IAmConsumer { .. } => consumer_to_server_text(message).len() >= 22
                && consumer_to_server_text(message)[0] == '{'
                && consumer_to_server_text(message)[2] == 'I',
            ConsumerToServerView::ProtocolVersion(_) => consumer_to_server_text(message).len() >= 27
                && consumer_to_server_text(message)[0] == '{'
                && consumer_to_server_text(message)[2] == 'C',
            ConsumerToServerView::Ping => consumer_to_server_text(message).len() >= 6
                && consumer_to_server_text(message)[0] == '"'
                && consumer_to_server_text(message)[2] == 'i',
        },
{
    reveal_strlit("{\"IAmConsumer\":{\"id\":\"");
    reveal_strlit("{\"ConsumerProtocolVersion\":");
    reveal_strlit("\"Ping\"");
}

/// Two messages that a consumer sends to the relay and that have the same text are
/// the same message. So a message that is written and then read is read as
/// it was written.
pub proof fn lemma_consumer_to_server_round_trip(written: ConsumerToServer, read: ConsumerToServer)
    requires
        consumer_to_server_text(read@) == consumer_to_server_text(written@),
    ensures
        read@ == written@,
{
    lemma_consumer_to_server_marks(written@);
    lemma_consumer_to_server_marks(read@);
    match (written@, read@) {
        (
            ConsumerToServerView::IAmConsumer { id: left },
            ConsumerToServerView::IAmConsumer { id: right },
        ) => {
            lemma_between(
                "{\"IAmConsumer\":{\"id\":\""@,
                escaped(left),
                escaped(right),
                "\"}}"@,
            );
            lemma_unescaped_of_escaped(left);
            lemma_unescaped_of_escaped(right);
        },
        (
            ConsumerToServerView::ProtocolVersion(left),
            ConsumerToServerView::ProtocolVersion(right),
        ) => {
            lemma_between(
                "{\"ConsumerProtocolVersion\":"@,
                decimal(left as nat),
                decimal(right as nat),
                "}"@,
            );
            lemma_number_of_decimal(left as nat);
            lemma_number_of_decimal(right as nat);
        },
        _ => {},
    }
}

/// The text of a message that the relay sends to a consumer.
pub open spec fn server_to_consumer_text(message: ServerToConsumerView) -> Seq<char> {
    match message {
        ServerToConsumerView::ChordEvent(inside) => "{\"ChordEvent\":"@
            + inside + "}"@,
        ServerToConsumerView::PitchesEvent(inside) => "{\"PitchesEvent\":["@
            + pitch_text(inside) + "]}"@,
        ServerToConsumerView::Silence => "\"Silence\""@,
        ServerToConsumerView::Pong => "\"Pong\""@,
    }
}

/// Writes a message that the relay sends to a consumer.
pub fn encode_server_to_consumer(message: &ServerToConsumer) -> (text: String)
    ensures
        text@ == server_to_consumer_text(message@),
{
    let mut out: Vec<char> = Vec::new();
    match message {
        ServerToConsumer::ChordEvent(inside) => {
            push_str(&mut out, "{\"ChordEvent\":");
            push_str(&mut out, inside.0.as_str());
            push_str(&mut out, "}");
        },
        ServerToConsumer::PitchesEvent(inside) => {
            push_str(&mut out, "{\"PitchesEvent\":[");
            write_pitches(&mut out, inside);
            push_str(&mut out, "]}");
        },
        ServerToConsumer::Silence => {
            push_str(&mut out, "\"Silence\"");
        },
        ServerToConsumer::Pong => {
            push_str(&mut out, "\"Pong\"");
        },
    }
    assert(out@ =~= server_to_consumer_text(message@));
    assert(out@.subrange(0, out.len() as int) =~= out@);
    text_of(&out, 0, out.len())
}

impl ToMessage for ServerToConsumer {
    open spec fn message_text(&self) -> Seq<char> {
        server_to_consumer_text(self@)
    }

    fn to_message(&self) -> (text: String) {
        encode_server_to_consumer(self)
    }
}

/// Reads a message that the relay sends to a consumer. A text is read as a message
/// if and only if it is that message's text.
pub fn decode_server_to_consumer(text: &str) -> (message: Result<ServerToConsumer, Undecodable>)
    ensures
        match message {
            Ok(message) => server_to_consumer_text(message@) == text@,
            Err(_) => forall|message: ServerToConsumer| server_to_consumer_text(message@) != text@,
        },
{
    let chars = chars_of(text);
    match framed_raw(&chars, "{\"ChordEvent\":", "}") {
        Some(inside) => {
            return Ok(ServerToConsumer::ChordEvent(ChordDescriptor(inside)));
        },
        None => {},
    }
    match framed_pitches(&chars, "{\"PitchesEvent\":[", "]}") {
        Some(inside) => {
            return Ok(ServerToConsumer::PitchesEvent(inside));
        },
        None => {},
    }
    if is_text(&chars, "\"Silence\"") {
        return Ok(ServerToConsumer::Silence);
    }
    if is_text(&chars, "\"Pong\"") {
        return Ok(ServerToConsumer::Pong);
    }
    assert forall|message: ServerToConsumer| server_to_consumer_text(message@) != text@ by {
        match message {
            ServerToConsumer::ChordEvent(inside) => {
                assert(server_to_consumer_text(message@) == "{\"ChordEvent\":"@
                    + inside@ + "}"@);
            },
            ServerToConsumer::PitchesEvent(inside) => {
                assert(server_to_consumer_text(message@) == "{\"PitchesEvent\":["@
                    + pitch_text(inside@) + "]}"@);
            },
            ServerToConsumer::Silence => {},
            ServerToConsumer::Pong => {},
        }
    }
    Err(Undecodable)
}

/// The characters by which the texts of two different messages differ.
proof fn lemma_server_to_consumer_marks(message: ServerToConsumerView)
    ensures
        match message {
            ServerToConsumerView::ChordEvent(_) => server_to_consumer_text(message).len() >= 14
                && server_to_consumer_text(message)[0] == '{'
                && server_to_consumer_text(message)[2] == 'C',
            ServerToConsumerView::PitchesEvent(_) => server_to_consumer_text(message).len() >= 17
                && server_to_consumer_text(message)[0] == '{'
                && server_to_consumer_text(message)[2] == 'P',
            ServerToConsumerView::Silence => server_to_consumer_text(message).len() >= 9
                && server_to_consumer_text(message)[0] == '"'
                && server_to_consumer_text(message)[2] == 'i',
            ServerToConsumerView::Pong => server_to_consumer_text(message).len() >= 6
                && server_to_consumer_text(message)[0] == '"'
                && server_to_consumer_text(message)[2] == 'o',
        },
{
    reveal_strlit("{\"ChordEvent\":");
    reveal_strlit("{\"PitchesEvent\":[");
    reveal_strlit("\"Silence\"");
    reveal_strlit("\"Pong\"");
}

/// Two messages that the relay sends to a consumer and that have the same text are
/// the same message. So a message that is written and then read is read as
/// it was written.
pub proof fn lemma_server_to_consumer_round_trip(written: ServerToConsumer, read: ServerToConsumer)
    requires
        server_to_consumer_text(read@) == server_to_consumer_text(written@),
    ensures
        read@ == written@,
{
    lemma_server_to_consumer_marks(written@);
    lemma_server_to_consumer_marks(read@);
    match (written@, read@) {
        (ServerToConsumerView::ChordEvent(left), ServerToConsumerView::ChordEvent(right)) => {
            lemma_between(
                "{\"ChordEvent\":"@,
                left,
                right,
                "}"@,
            );
        },
        (ServerToConsumerView::PitchesEvent(left), ServerToConsumerView::PitchesEvent(right)) => {
            lemma_between(
                "{\"PitchesEvent\":["@,
                pitch_text(left),
                pitch_text(right),
                "]}"@,
            );
            lemma_pitches_in_items(left, 0);
            lemma_pitches_in_items(right, 0);
            assert(pitches_from(left, 0) =~= left);
            assert(pitches_from(right, 0) =~= right);
        },
        _ => {},
    }
}

/// Writes a message that a client sends to the relay.
pub fn encode_client_to_server(message: &ClientToServer) -> (text: String)
    ensures
        text@ == message.message_text(),
{
    match message {
        ClientToServer::Publisher(inner) => encode_publisher_to_server(inner),
        ClientToServer::Consumer(inner) => encode_consumer_to_server(inner),
    }
}

impl ToMessage for ClientToServer {
    open spec fn message_text(&self) -> Seq<char> {
        match *self {
            ClientToServer::Publisher(inner) => publisher_to_server_text(inner@),
            ClientToServer::Consumer(inner) => consumer_to_server_text(inner@),
        }
    }

    fn to_message(&self) -> (text: String) {
        encode_client_to_server(self)
    }
}

/// Reads the text of a frame that a client sent. A text that is a
/// publisher's message is read as that, a text that is only a consumer's
/// message as that, and any other text is no message.
pub fn client_frame(text: &str) -> (frame: Frame<ClientToServer>)
    ensures
        match frame {
            Frame::Message(ClientToServer::Publisher(message)) => publisher_to_server_text(message@)
                == text@,
            Frame::Message(ClientToServer::Consumer(message)) => consumer_to_server_text(message@)
                == text@ && forall|other: PublisherToServer|
                publisher_to_server_text(other@) != text@,
            Frame::Undecodable => (forall|other: PublisherToServer|
                publisher_to_server_text(other@) != text@) && (forall|other: ConsumerToServer|
                consumer_to_server_text(other@) != text@),
            Frame::NonText => false,
        },
{
    match decode_publisher_to_server(text) {
        Ok(message) => Frame::Message(ClientToServer::Publisher(message)),
        Err(_) => match decode_consumer_to_server(text) {
            Ok(message) => Frame::Message(ClientToServer::Consumer(message)),
            Err(_) => Frame::Undecodable,
        },
    }
}

/// Reads the text of a frame that the relay sent to a publisher.
pub fn publisher_frame(text: &str) -> (frame: Frame<ServerToPublisher>)
    ensures
        match frame {
            Frame::Message(message) => server_to_publisher_text(message@) == text@,
            Frame::Undecodable => forall|other: ServerToPublisher|
                server_to_publisher_text(other@) != text@,
            Frame::NonText => false,
        },
{
    match decode_server_to_publisher(text) {
        Ok(message) => Frame::Message(message),
        Err(_) => Frame::Undecodable,
    }
}

/// Reads the text of a frame that the relay sent to a consumer.
pub fn consumer_frame(text: &str) -> (frame: Frame<ServerToConsumer>)
    ensures
        match frame {
            Frame::Message(message) => server_to_consumer_text(message@) == text@,
            Frame::Undecodable => forall|other: ServerToConsumer|
                server_to_consumer_text(other@) != text@,
            Frame::NonText => false,
        },
{
    match decode_server_to_consumer(text) {
        Ok(message) => Frame::Message(message),
        Err(_) => Frame::Undecodable,
    }
}

} // verus!
