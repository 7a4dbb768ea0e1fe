//! The messages that travel between clients and the relay.
//!
//! There is one set of messages for each direction and each role. A chord is
//! carried as the chord-theory collaborator wrote it down and is never looked
//! into; a note set is a set of pitch identifiers.

use vstd::prelude::*;

verus! {

/// The protocol version that this relay speaks.
pub const PROTOCOL_VERSION: u32 = 1;

/// Milliseconds between two pings of a client.
pub const PING_INTERVAL: u64 = 10_000;

/// Milliseconds of silence after which the relay gives up on a peer.
pub const PING_AWAIT_INTERVAL: u64 = 15_000;

/// Milliseconds that a pong may take after its ping.
pub const PING_TO_PONG_ALLOWED_DELAY: u64 = 5_000;

/// Milliseconds that a client waits before it connects again, before jitter.
pub const CLIENT_RECONNECT_DURATION: u64 = 500;

/// What a connection is, once it has said so.
#[derive(Clone, Copy, Debug, PartialEq, Eq, Structural)]
pub enum Role {
    Publisher,
    Consumer,
}

/// A chord in the form in which it travels. The relay forwards it and never
/// looks inside.
#[derive(Clone, Debug, PartialEq, Eq)]
pub struct ChordDescriptor(pub String);

impl View for ChordDescriptor {
    type V = Seq<char>;

    /// The chord's text.
    open spec fn view(&self) -> Seq<char> {
        self.0@
    }
}

/// The number of pitch identifiers: a pitch is a number below this.
pub const PITCHES: u8 = 128;

/// A set of pitch identifiers, each below [`PITCHES`]: one bit for each.
#[derive(Clone, Copy, Debug, PartialEq, Eq, Structural)]
pub struct NoteSet {
    mask: u128,
}

/// The bit that stands for `pitch` in a note set.
pub open spec fn pitch_bit(pitch: u8) -> u128
    recommends
        pitch < PITCHES,
{
    1u128 << (pitch as u128)
}

impl View for NoteSet {
    type V = Set<u8>;

    /// The pitches of the set.
    open spec fn view(&self) -> Set<u8> {
        Set::new(|pitch: u8| self.has(pitch))
    }
}

impl NoteSet {
    /// The bits of the set, bit `p` for pitch `p`.
    pub closed spec fn bits(self) -> u128 {
        self.mask
    }

    /// Whether `pitch` is in the set.
    pub open spec fn has(self, pitch: u8) -> bool {
        pitch < PITCHES && self.bits() & pitch_bit(pitch) != 0
    }

    /// The set with no pitch in it.
    pub fn new() -> (set: NoteSet)
        ensures
            set@ == Set::<u8>::empty(),
            set.bits() == 0,
    {
        let set = NoteSet { mask: 0 };
        assert forall|p: u8| !set.has(p) by {
            let b = pitch_bit(p);
            assert(0u128 & b == 0) by (bit_vector);
        }
        assert(set@ =~= Set::<u8>::empty());
        set
    }

    /// The set whose bits are `mask`, as `klib` numbers its notes.
    pub fn from_id_mask(mask: u128) -> (set: NoteSet)
        ensures
            set.bits() == mask,
    {
        NoteSet { mask }
    }

    /// The bits of the set.
    pub fn id_mask(&self) -> (mask: u128)
        ensures
            mask == self.bits(),
    {
        self.mask
    }

    /// Whether `pitch` is in the set.
    pub fn contains(&self, pitch: u8) -> (found: bool)
        ensures
            found == self@.contains(pitch),
    {
        if pitch < PITCHES {
            self.mask & (1u128 << (pitch as u128)) != 0
        } else {
            false
        }
    }

    /// Puts `pitch` into the set. A number that is no pitch changes nothing.
    pub fn insert(&mut self, pitch: u8)
        ensures
            final(self)@ == (if pitch < PITCHES {
                old(self)@.insert(pitch)
            } else {
                old(self)@
            }),
    {
        if pitch < PITCHES {
            let ghost before = self.mask;
            self.mask = self.mask | (1u128 << (pitch as u128));
            proof {
                let after = self.mask;
                assert forall|p: u8|
                    (p < PITCHES && after & pitch_bit(p) != 0) == ((p < PITCHES && before & pitch_bit(p)
                        != 0) || p == pitch) by {
                    lemma_bit_after_insert(before, pitch, p);
                }
                assert(self@ =~= old(self)@.insert(pitch));
            }
        }
    }

    /// Takes `pitch` out of the set. A number that is no pitch changes nothing.
    pub fn remove(&mut self, pitch: u8)
        ensures
            final(self)@ == old(self)@.remove(pitch),
    {
        if pitch < PITCHES {
            let ghost before = self.mask;
            self.mask = self.mask & !(1u128 << (pitch as u128));
            proof {
                let after = self.mask;
                assert forall|p: u8|
                    (p < PITCHES && after & pitch_bit(p) != 0) == ((p < PITCHES && before & pitch_bit(p)
                        != 0) && p != pitch) by {
                    lemma_bit_after_remove(before, pitch, p);
                }
                assert(self@ =~= old(self)@.remove(pitch));
            }
        } else {
            assert(self@ =~= old(self)@.remove(pitch));
        }
    }
}

proof fn lemma_bit_after_insert(mask: u128, pitch: u8, p: u8)
    requires
        pitch < 128,
    ensures
        (p < 128 && (mask | pitch_bit(pitch)) & pitch_bit(p) != 0) == ((p < 128 && mask & pitch_bit(p)
            != 0) || p == pitch),
{
    let a = pitch as u128;
    let b = p as u128;
    if p < 128 {
        assert(((mask | (1u128 << a)) & (1u128 << b) != 0) == (mask & (1u128 << b) != 0 || a == b))
            by (bit_vector)
            requires
                a < 128,
                b < 128,
        ;
    }
}

proof fn lemma_bit_after_remove(mask: u128, pitch: u8, p: u8)
    requires
        pitch < 128,
    ensures
        (p < 128 && (mask & !pitch_bit(pitch)) & pitch_bit(p) != 0) == ((p < 128 && mask & pitch_bit(p)
            != 0) && p != pitch),
{
    let a = pitch as u128;
    let b = p as u128;
    if p < 128 {
        assert(((mask & !(1u128 << a)) & (1u128 << b) != 0) == (mask & (1u128 << b) != 0 && a != b))
            by (bit_vector)
            requires
                a < 128,
                b < 128,
        ;
    }
}

/// The bits below `upto`.
spec fn low_bits(upto: u128) -> u128 {
    ((1u128 << upto) - 1) as u128
}

/// Two masks that agree in every bit below `upto` agree in all of them
/// taken together.
proof fn lemma_masks_agree(left: u128, right: u128, upto: u128)
    requires
        upto <= 127,
        forall|p: u8| p < 128 ==> (left & pitch_bit(p) != 0) == (right & pitch_bit(p) != 0),
    ensures
        left & low_bits(upto) == right & low_bits(upto),
    decreases upto,
{
    if upto == 0 {
        assert(left & low_bits(0) == 0) by (bit_vector);
        assert(right & low_bits(0) == 0) by (bit_vector);
    } else {
        let below = (upto - 1) as u128;
        lemma_masks_agree(left, right, below);
        let p = below as u8;
        assert(pitch_bit(p) == 1u128 << below);
        assert((left & (1u128 << below) != 0) == (right & (1u128 << below) != 0));
        assert(left & low_bits(upto) == right & low_bits(upto)) by (bit_vector)
            requires
                upto == below + 1,
                upto <= 127,
                left & low_bits(below) == right & low_bits(below),
                (left & (1u128 << below) != 0) == (right & (1u128 << below) != 0),
        ;
    }
}

/// Note sets with the same pitches are the same note set.
pub proof fn lemma_same_pitches(left: NoteSet, right: NoteSet)
    requires
        left@ == right@,
    ensures
        left == right,
{
    let a = left.mask;
    let b = right.mask;
    assert forall|p: u8| p < 128 implies (a & pitch_bit(p) != 0) == (b & pitch_bit(p) != 0) by {
        assert(left@.contains(p) == left.has(p));
        assert(right@.contains(p) == right.has(p));
    }
    lemma_masks_agree(a, b, 127);
    assert(pitch_bit(127) == 1u128 << 127u128);
    assert((a & (1u128 << 127u128) != 0) == (b & (1u128 << 127u128) != 0));
    assert(a == b) by (bit_vector)
        requires
            a & low_bits(127) == b & low_bits(127),
            (a & (1u128 << 127u128) != 0) == (b & (1u128 << 127u128) != 0),
    ;
}

/// What a publisher sends to the relay.
#[derive(Clone, Debug, PartialEq, Eq)]
pub enum PublisherToServer {
    IAmPublisher { id: String },
    ProtocolVersion(u32),
    PublishChord(ChordDescriptor),
    PublishPitches(NoteSet),
    PublishSilence,
    Ping,
}

/// What a publisher sends to the relay, as a value.
pub enum PublisherToServerView {
    IAmPublisher { id: Seq<char> },
    ProtocolVersion(u32),
    PublishChord(Seq<char>),
    PublishPitches(Set<u8>),
    PublishSilence,
    Ping,
}

impl View for PublisherToServer {
    type V = PublisherToServerView;

    open spec fn view(&self) -> PublisherToServerView {
        match *self {
            PublisherToServer::IAmPublisher { id } => PublisherToServerView::IAmPublisher { id: id@ },
            PublisherToServer::ProtocolVersion(version) => PublisherToServerView::ProtocolVersion(
                version,
            ),
            PublisherToServer::PublishChord(chord) => PublisherToServerView::PublishChord(chord@),
            PublisherToServer::PublishPitches(pitches) => PublisherToServerView::PublishPitches(
                pitches@,
            ),
            PublisherToServer::PublishSilence => PublisherToServerView::PublishSilence,
            PublisherToServer::Ping => PublisherToServerView::Ping,
        }
    }
}

/// What the relay sends to a publisher.
#[derive(Clone, Debug, PartialEq, Eq)]
pub enum ServerToPublisher {
    Pong,
    /// The answer to a publisher that announces itself a second time.
    AlreadyIdentified,
    /// The answer to a frame that the relay could not take, with the reason.
    ProtocolError(String),
}

/// What the relay sends to a publisher, as a value.
pub enum ServerToPublisherView {
    Pong,
    AlreadyIdentified,
    ProtocolError(Seq<char>),
}

impl View for ServerToPublisher {
    type V = ServerToPublisherView;

    open spec fn view(&self) -> ServerToPublisherView {
        match *self {
            ServerToPublisher::Pong => ServerToPublisherView::Pong,
            ServerToPublisher::AlreadyIdentified => ServerToPublisherView::AlreadyIdentified,
            ServerToPublisher::ProtocolError(text) => ServerToPublisherView::ProtocolError(text@),
        }
    }
}

/// What a consumer sends to the relay.
#[derive(Clone, Debug, PartialEq, Eq)]
pub enum ConsumerToServer {
    IAmConsumer { id: String },
    ProtocolVersion(u32),
    Ping,
}

/// What a consumer sends to the relay, as a value.
pub enum ConsumerToServerView {
    IAmConsumer { id: Seq<char> },
    ProtocolVersion(u32),
    Ping,
}

impl View for ConsumerToServer {
    type V = ConsumerToServerView;

    open spec fn view(&self) -> ConsumerToServerView {
        match *self {
            ConsumerToServer::IAmConsumer { id } => ConsumerToServerView::IAmConsumer { id: id@ },
            ConsumerToServer::ProtocolVersion(version) => ConsumerToServerView::ProtocolVersion(
                version,
            ),
            ConsumerToServer::Ping => ConsumerToServerView::Ping,
        }
    }
}

/// What the relay sends to a consumer.
#[derive(Clone, Debug, PartialEq, Eq)]
pub enum ServerToConsumer {
    ChordEvent(ChordDescriptor),
    PitchesEvent(NoteSet),
    Silence,
    Pong,
}

/// What the relay sends to a consumer, as a value.
pub enum ServerToConsumerView {
    ChordEvent(Seq<char>),
    PitchesEvent(Set<u8>),
    Silence,
    Pong,
}

impl View for ServerToConsumer {
    type V = ServerToConsumerView;

    open spec fn view(&self) -> ServerToConsumerView {
        match *self {
            ServerToConsumer::ChordEvent(chord) => ServerToConsumerView::ChordEvent(chord@),
            ServerToConsumer::PitchesEvent(pitches) => ServerToConsumerView::PitchesEvent(pitches@),
            ServerToConsumer::Silence => ServerToConsumerView::Silence,
            ServerToConsumer::Pong => ServerToConsumerView::Pong,
        }
    }
}

/// What a client sends to the relay, whichever its role.
#[derive(Clone, Debug, PartialEq, Eq)]
pub enum ClientToServer {
    Publisher(PublisherToServer),
    Consumer(ConsumerToServer),
}

/// One frame as the transport read it: a message of kind `M`, a text that is
/// no such message, or a frame that is no text.
#[derive(Clone, Debug, PartialEq, Eq)]
pub enum Frame<M> {
    Message(M),
    Undecodable,
    NonText,
}

} // verus!
