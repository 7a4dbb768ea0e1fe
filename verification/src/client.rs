//! A client's side of a connection, for a consumer and for a publisher.
//!
//! After it has connected, a client announces the protocol version and what
//! it is. Then it takes what the relay sends. With `pingpong` it pings the
//! relay at every tick of its ping timer, and it gives up when the relay
//! has not answered within [`PING_TO_PONG_ALLOWED_DELAY`] or was silent
//! for [`PING_AWAIT_INTERVAL`]. Like the relay's side, a session here is a
//! value that is told what happens and says what to do.

use crate::protocol::{
    ChordDescriptor, ClientToServer, ConsumerToServer, Frame, NoteSet, PublisherToServer, Role,
    ServerToConsumer, ServerToPublisher, PING_AWAIT_INTERVAL, PING_INTERVAL,
    PING_TO_PONG_ALLOWED_DELAY, PROTOCOL_VERSION,
};
use crate::outcome::{Outcome, ProtocolViolation, SessionError};
use crate::watchdog::{Signal, Watchdog, WatchdogModel};
use vstd::prelude::*;

verus! {

/// The first message of a client of the given role: the protocol version.
pub fn announce_protocol_version(role: Role) -> (version: ClientToServer)
    ensures
        version == (match role {
            Role::Publisher => ClientToServer::Publisher(
                PublisherToServer::ProtocolVersion(PROTOCOL_VERSION),
            ),
            Role::Consumer => ClientToServer::Consumer(
                ConsumerToServer::ProtocolVersion(PROTOCOL_VERSION),
            ),
        }),
{
    match role {
        Role::Publisher => ClientToServer::Publisher(
            PublisherToServer::ProtocolVersion(PROTOCOL_VERSION),
        ),
        Role::Consumer => ClientToServer::Consumer(ConsumerToServer::ProtocolVersion(PROTOCOL_VERSION)),
    }
}

/// The second message of a consumer: what it is, and what it calls itself.
pub fn announce_as_consumer(id: &str) -> (announce: ConsumerToServer)
    ensures
        announce matches ConsumerToServer::IAmConsumer { id: name } && name@ == id@,
{
    ConsumerToServer::IAmConsumer { id: id.to_owned() }
}

/// The second message of a publisher: what it is, and what it calls itself.
pub fn announce_as_publisher(id: &str) -> (announce: PublisherToServer)
    ensures
        announce matches PublisherToServer::IAmPublisher { id: name } && name@ == id@,
{
    PublisherToServer::IAmPublisher { id: id.to_owned() }
}

/// The ping timer's period in milliseconds, and the watchdog that waits for
/// the pong: it has [`PING_TO_PONG_ALLOWED_DELAY`] as its timeout and is
/// stopped.
pub fn create_watchdog() -> (made: (u64, Watchdog))
    ensures
        made.0 == PING_INTERVAL,
        made.1@ == WatchdogModel::fresh(PING_TO_PONG_ALLOWED_DELAY as nat),
{
    let mut watchdog = Watchdog::with_timeout(PING_TO_PONG_ALLOWED_DELAY);
    watchdog.signal(Signal::Stop, 0);
    (PING_INTERVAL, watchdog)
}

/// The result of a task that ran a session: what the session returned, or
/// the failure of the task itself.
pub fn flatten<T, E>(joined: Result<Result<T, E>, E>) -> (flat: Result<T, E>)
    ensures
        flat == (match joined {
            Ok(Ok(value)) => Ok::<T, E>(value),
            Ok(Err(error)) => Err::<T, E>(error),
            Err(error) => Err::<T, E>(error),
        }),
{
    match joined {
        Ok(Ok(value)) => Ok(value),
        Ok(Err(error)) => Err(error),
        Err(error) => Err(error),
    }
}

/// What a consumer renders.
#[derive(Clone, Debug, PartialEq, Eq)]
pub enum Playable {
    Chord(ChordDescriptor),
    Pitches(NoteSet),
}

/// What a consumer is to play for a message of the relay: a chord or a set
/// of pitches, and nothing for silence and for a pong.
pub fn handle_message(msg: ServerToConsumer) -> (playable: Option<Playable>)
    ensures
        playable == (match msg {
            ServerToConsumer::ChordEvent(chord) => Some(Playable::Chord(chord)),
            ServerToConsumer::PitchesEvent(pitches) => Some(Playable::Pitches(pitches)),
            ServerToConsumer::Silence => None,
            ServerToConsumer::Pong => None,
        }),
{
    match msg {
        ServerToConsumer::ChordEvent(chord) => Some(Playable::Chord(chord)),
        ServerToConsumer::PitchesEvent(pitches) => Some(Playable::Pitches(pitches)),
        ServerToConsumer::Silence => None,
        ServerToConsumer::Pong => None,
    }
}

/// The smaller of two times, where there are two.
pub open spec fn sooner(left: Option<nat>, right: Option<nat>) -> Option<nat> {
    match (left, right) {
        (Some(left), Some(right)) => if left <= right {
            Some(left)
        } else {
            Some(right)
        },
        (Some(left), None) => Some(left),
        (None, right) => right,
    }
}

/// The liveness check of a client, as a value. It has two watchdogs: one
/// waits for the answer to a ping, and one for any sign of the relay.
pub struct HeartbeatModel {
    /// Whether the client checks on the relay at all.
    pub pingpong: bool,
    /// The watchdog that a ping arms and that any frame of the relay stops.
    /// Its timeout is the time that an answer may take.
    pub pong: WatchdogModel,
    /// The watchdog that every frame of the relay resets. Its timeout is
    /// the silence that the client bears.
    pub liveness: WatchdogModel,
}

impl HeartbeatModel {
    /// The check of a session that has just begun, for a client that gives
    /// the relay `delay` milliseconds to answer a ping and bears `silence`
    /// milliseconds of silence.
    pub open spec fn configured(pingpong: bool, delay: nat, silence: nat) -> HeartbeatModel {
        HeartbeatModel {
            pingpong,
            pong: WatchdogModel::fresh(delay),
            liveness: WatchdogModel::fresh(silence),
        }
    }

    /// The check of a session that has just begun, for a client that gives
    /// the relay [`PING_TO_PONG_ALLOWED_DELAY`] to answer a ping and bears
    /// [`PING_AWAIT_INTERVAL`] of silence.
    pub open spec fn fresh(pingpong: bool) -> HeartbeatModel {
        HeartbeatModel::configured(
            pingpong,
            PING_TO_PONG_ALLOWED_DELAY as nat,
            PING_AWAIT_INTERVAL as nat,
        )
    }

    /// The check after a ping went out at time `now`: the answer is due
    /// within the delay.
    pub open spec fn pinged(self, now: nat) -> HeartbeatModel {
        if self.pingpong {
            HeartbeatModel { pong: self.pong.signal(Signal::Reset, now), ..self }
        } else {
            self
        }
    }

    /// The check after a frame of the relay came in at time `now`: no
    /// answer is due any more, and the silence begins anew.
    pub open spec fn heard(self, now: nat) -> HeartbeatModel {
        if self.pingpong {
            HeartbeatModel {
                pong: self.pong.signal(Signal::Stop, now),
                liveness: self.liveness.signal(Signal::Reset, now),
                ..self
            }
        } else {
            self
        }
    }

    /// Whether the relay has been unresponsive for too long by time `now`.
    pub open spec fn timed_out(self, now: nat) -> bool {
        self.pingpong && (self.pong.due(now) || self.liveness.due(now))
    }

    /// The check after a look at the clock at time `now`.
    pub open spec fn looked(self, now: nat) -> HeartbeatModel {
        if self.pingpong {
            HeartbeatModel { pong: self.pong.poll(now), liveness: self.liveness.poll(now), ..self }
        } else {
            self
        }
    }

    /// The time at which the client is to look at the clock next, if any:
    /// the sooner of the two deadlines.
    pub open spec fn wake_at(self) -> Option<nat> {
        if self.pingpong {
            sooner(self.pong.deadline(), self.liveness.deadline())
        } else {
            None
        }
    }
}

/// The liveness check of a client.
#[derive(Debug)]
pub struct Heartbeat {
    pingpong: bool,
    pong: Watchdog,
    liveness: Watchdog,
}

impl View for Heartbeat {
    type V = HeartbeatModel;

    closed spec fn view(&self) -> HeartbeatModel {
        HeartbeatModel { pingpong: self.pingpong, pong: self.pong@, liveness: self.liveness@ }
    }
}

impl Heartbeat {
    /// The check of a session that has just begun.
    pub fn new(pingpong: bool) -> (heartbeat: Heartbeat)
        ensures
            heartbeat@ == HeartbeatModel::fresh(pingpong),
    {
        let (_, pong) = create_watchdog();
        Heartbeat { pingpong, pong, liveness: Watchdog::with_timeout(PING_AWAIT_INTERVAL) }
    }

    /// The check of a session that has just begun, for a client that gives
    /// the relay `delay` milliseconds to answer a ping and bears `silence`
    /// milliseconds of silence.
    pub fn configured(pingpong: bool, delay: u64, silence: u64) -> (heartbeat: Heartbeat)
        ensures
            heartbeat@ == HeartbeatModel::configured(pingpong, delay as nat, silence as nat),
    {
        Heartbeat {
            pingpong,
            pong: Watchdog::with_timeout(delay),
            liveness: Watchdog::with_timeout(silence),
        }
    }

    /// Whether the client checks on the relay.
    pub fn enabled(&self) -> (enabled: bool)
        ensures
            enabled == self@.pingpong,
    {
        self.pingpong
    }

    /// Notes that a ping goes out at time `now`, and says whether it does:
    /// without `pingpong` no ping is sent.
    pub fn ping(&mut self, now: u64) -> (sent: bool)
        ensures
            final(self)@ == old(self)@.pinged(now as nat),
            sent == old(self)@.pingpong,
    {
        if self.pingpong {
            self.pong.signal(Signal::Reset, now);
        }
        self.pingpong
    }

    /// Notes that a frame of the relay came in at time `now`.
    pub fn hear(&mut self, now: u64)
        ensures
            final(self)@ == old(self)@.heard(now as nat),
    {
        if self.pingpong {
            self.pong.signal(Signal::Stop, now);
            self.liveness.signal(Signal::Reset, now);
        }
    }

    /// Looks at the clock at time `now`, and says whether the relay has
    /// been unresponsive for too long.
    pub fn look(&mut self, now: u64) -> (timed_out: bool)
        ensures
            final(self)@ == old(self)@.looked(now as nat),
            timed_out == old(self)@.timed_out(now as nat),
    {
        if self.pingpong {
            let unanswered = self.pong.poll(now).is_some();
            let silent = self.liveness.poll(now).is_some();
            unanswered || silent
        } else {
            false
        }
    }

    /// The time at which the client is to look at the clock next, where a
    /// clock of 64 bits can reach it.
    pub fn wake_at(&self) -> (at: Option<u64>)
        ensures
            match at {
                Some(time) => self@.wake_at() == Some(time as nat),
                None => !(self@.wake_at() matches Some(time) && time <= u64::MAX),
            },
    {
        if self.pingpong {
            match (self.pong.deadline(), self.liveness.deadline()) {
                (Some(pong), Some(liveness)) => if pong <= liveness {
                    Some(pong)
                } else {
                    Some(liveness)
                },
                (Some(pong), None) => Some(pong),
                (None, liveness) => liveness,
            }
        } else {
            None
        }
    }
}

/// What can happen to a consumer's connection.
#[derive(Clone, Debug, PartialEq, Eq)]
pub enum ConsumerEvent {
    /// The relay sent a frame.
    Frame(Frame<ServerToConsumer>),
    /// The relay closed the connection.
    TransportClosed,
    /// Reading from the connection failed.
    TransportError,
    /// The ping timer ticked.
    PingTick,
    /// Time has passed.
    Tick,
}

/// What a consumer is to do after a step.
#[derive(Clone, Debug, PartialEq, Eq)]
pub enum ConsumerAction {
    Nothing,
    /// Send the message to the relay.
    Send(ConsumerToServer),
    /// Hand the event to the playback.
    Render(ServerToConsumer),
    /// Close the connection: the session is over, and this is how it ended.
    Close(Outcome),
}

/// A consumer's session, as a value.
pub struct ConsumerClientModel {
    /// How the session ended, once it has.
    pub finished: Option<Outcome>,
    pub heartbeat: HeartbeatModel,
}

impl ConsumerClientModel {
    /// The session of a consumer that has just announced itself.
    pub open spec fn fresh(pingpong: bool) -> ConsumerClientModel {
        ConsumerClientModel { finished: None, heartbeat: HeartbeatModel::fresh(pingpong) }
    }

    /// The session of a consumer that has just announced itself,
    /// gives the relay `delay` milliseconds to answer a ping and bears
    /// `silence` milliseconds of silence.
    pub open spec fn configured(pingpong: bool, delay: nat, silence: nat) -> ConsumerClientModel {
        ConsumerClientModel {
            finished: None,
            heartbeat: HeartbeatModel::configured(pingpong, delay, silence),
        }
    }

    /// The end of the session, and the action that goes with it.
    pub open spec fn close(self, outcome: Outcome) -> (ConsumerClientModel, ConsumerAction) {
        (ConsumerClientModel { finished: Some(outcome), ..self }, ConsumerAction::Close(outcome))
    }

    /// The session and the action after `event` at time `now`.
    pub open spec fn outcome(self, now: nat, event: ConsumerEvent) -> (
        ConsumerClientModel,
        ConsumerAction,
    ) {
        if self.finished.is_some() {
            (self, ConsumerAction::Nothing)
        } else {
            match event {
                ConsumerEvent::Frame(Frame::Message(message)) => (
                    ConsumerClientModel { heartbeat: self.heartbeat.heard(now), ..self },
                    match message {
                        ServerToConsumer::Pong => ConsumerAction::Nothing,
                        _ => ConsumerAction::Render(message),
                    },
                ),
                ConsumerEvent::Frame(_) => self.close(
                    Outcome::Failed(SessionError::Protocol(ProtocolViolation::Malformed)),
                ),
                ConsumerEvent::TransportClosed => self.close(Outcome::Ended),
                ConsumerEvent::TransportError => self.close(Outcome::Failed(SessionError::Transport)),
                ConsumerEvent::PingTick => (
                    ConsumerClientModel { heartbeat: self.heartbeat.pinged(now), ..self },
                    if self.heartbeat.pingpong {
                        ConsumerAction::Send(ConsumerToServer::Ping)
                    } else {
                        ConsumerAction::Nothing
                    },
                ),
                ConsumerEvent::Tick => if self.heartbeat.timed_out(now) {
                    ConsumerClientModel { heartbeat: self.heartbeat.looked(now), ..self }.close(
                        Outcome::Failed(SessionError::LivenessTimeout),
                    )
                } else {
                    (self, ConsumerAction::Nothing)
                },
            }
        }
    }

    /// The session after `event` at time `now`.
    pub open spec fn after(self, now: nat, event: ConsumerEvent) -> ConsumerClientModel {
        self.outcome(now, event).0
    }
}

/// A consumer's session.
#[derive(Debug)]
pub struct ConsumerClient {
    finished: Option<Outcome>,
    heartbeat: Heartbeat,
}

impl View for ConsumerClient {
    type V = ConsumerClientModel;

    closed spec fn view(&self) -> ConsumerClientModel {
        ConsumerClientModel { finished: self.finished, heartbeat: self.heartbeat@ }
    }
}

impl ConsumerClient {
    /// The session of a consumer that has just announced itself.
    pub fn new(pingpong: bool) -> (client: ConsumerClient)
        ensures
            client@ == ConsumerClientModel::fresh(pingpong),
    {
        ConsumerClient { finished: None, heartbeat: Heartbeat::new(pingpong) }
    }

    /// The session of a consumer that has just announced itself,
    /// gives the relay `delay` milliseconds to answer a ping and bears
    /// `silence` milliseconds of silence.
    pub fn configured(pingpong: bool, delay: u64, silence: u64) -> (client: ConsumerClient)
        ensures
            client@ == ConsumerClientModel::configured(pingpong, delay as nat, silence as nat),
    {
        ConsumerClient { finished: None, heartbeat: Heartbeat::configured(pingpong, delay, silence) }
    }

    /// How the session ended, once it has.
    pub fn finished(&self) -> (finished: Option<Outcome>)
        ensures
            finished == self@.finished,
    {
        self.finished
    }

    /// The time at which the caller is to send the next `Tick`, where a
    /// clock of 64 bits can reach it.
    pub fn wake_at(&self) -> (at: Option<u64>)
        ensures
            match at {
                Some(time) => self@.heartbeat.wake_at() == Some(time as nat),
                None => !(self@.heartbeat.wake_at() matches Some(time) && time <= u64::MAX),
            },
    {
        self.heartbeat.wake_at()
    }

    fn close(&mut self, outcome: Outcome) -> (action: ConsumerAction)
        ensures
            (final(self)@, action) == old(self)@.close(outcome),
    {
        self.finished = Some(outcome);
        ConsumerAction::Close(outcome)
    }

    /// Takes one event at time `now`, moves the session on, and says what
    /// the caller is to do.
    pub fn step(&mut self, now: u64, event: ConsumerEvent) -> (action: ConsumerAction)
        ensures
            (final(self)@, action) == old(self)@.outcome(now as nat, event),
    {
        if self.finished.is_some() {
            return ConsumerAction::Nothing;
        }
        match event {
            ConsumerEvent::Frame(Frame::Message(message)) => {
                self.heartbeat.hear(now);
                match message {
                    ServerToConsumer::Pong => ConsumerAction::Nothing,
                    _ => ConsumerAction::Render(message),
                }
            },
            ConsumerEvent::Frame(_) => self.close(
                Outcome::Failed(SessionError::Protocol(ProtocolViolation::Malformed)),
            ),
            ConsumerEvent::TransportClosed => self.close(Outcome::Ended),
            ConsumerEvent::TransportError => self.close(Outcome::Failed(SessionError::Transport)),
            ConsumerEvent::PingTick => {
                if self.heartbeat.ping(now) {
                    ConsumerAction::Send(ConsumerToServer::Ping)
                } else {
                    ConsumerAction::Nothing
                }
            },
            ConsumerEvent::Tick => {
                if self.heartbeat.look(now) {
                    self.close(Outcome::Failed(SessionError::LivenessTimeout))
                } else {
                    ConsumerAction::Nothing
                }
            },
        }
    }
}

/// What the source of a publisher's events hands in.
#[derive(Clone, Debug, PartialEq, Eq)]
pub enum DomainEvent {
    /// The notes that sound after a key has moved, and the chord that chord
    /// theory makes of them, if it makes one.
    Notes { notes: NoteSet, chord: Option<ChordDescriptor> },
    /// The next chord of a song.
    SongChord(ChordDescriptor),
}

/// What can happen to a publisher's connection.
#[derive(Clone, Debug, PartialEq, Eq)]
pub enum PublisherEvent {
    /// The relay sent a frame.
    Frame(Frame<ServerToPublisher>),
    /// The relay closed the connection.
    TransportClosed,
    /// Reading from the connection failed.
    TransportError,
    /// The ping timer ticked.
    PingTick,
    /// Time has passed.
    Tick,
    /// The source of events has a new one.
    Domain(DomainEvent),
    /// The source of events has come to its end.
    DomainEnded,
}

/// What a publisher is to do after a step, one of a list.
#[derive(Clone, Debug, PartialEq, Eq)]
pub enum PublisherAction {
    /// Send the message to the relay.
    Send(PublisherToServer),
    /// Close the connection: the session is over, and this is how it ended.
    Close(Outcome),
}

/// What a publisher sends for the notes that sound: the chord where chord
/// theory has found one, and the notes themselves where it has not.
pub open spec fn publication_of(notes: NoteSet, chord: Option<ChordDescriptor>) -> PublisherToServer {
    match chord {
        Some(chord) => PublisherToServer::PublishChord(chord),
        None => PublisherToServer::PublishPitches(notes),
    }
}

/// What a publisher sends for the notes that sound.
pub fn publication(notes: NoteSet, chord: Option<ChordDescriptor>) -> (message: PublisherToServer)
    ensures
        message == publication_of(notes, chord),
{
    match chord {
        Some(chord) => PublisherToServer::PublishChord(chord),
        None => PublisherToServer::PublishPitches(notes),
    }
}

/// A publisher's session, as a value.
pub struct PublisherClientModel {
    /// How the session ended, once it has.
    pub finished: Option<Outcome>,
    pub heartbeat: HeartbeatModel,
}

impl PublisherClientModel {
    /// The session of a publisher that has just announced itself.
    pub open spec fn fresh(pingpong: bool) -> PublisherClientModel {
        PublisherClientModel { finished: None, heartbeat: HeartbeatModel::fresh(pingpong) }
    }

    /// The session of a publisher that has just announced itself,
    /// gives the relay `delay` milliseconds to answer a ping and bears
    /// `silence` milliseconds of silence.
    pub open spec fn configured(pingpong: bool, delay: nat, silence: nat) -> PublisherClientModel {
        PublisherClientModel {
            finished: None,
            heartbeat: HeartbeatModel::configured(pingpong, delay, silence),
        }
    }

    /// The end of the session, and the action that goes with it.
    pub open spec fn close(self, outcome: Outcome) -> (PublisherClientModel, Seq<PublisherAction>) {
        (
            PublisherClientModel { finished: Some(outcome), ..self },
            seq![PublisherAction::Close(outcome)],
        )
    }

    /// The session and the actions, in order, after `event` at time `now`.
    pub open spec fn outcome(self, now: nat, event: PublisherEvent) -> (
        PublisherClientModel,
        Seq<PublisherAction>,
    ) {
        if self.finished.is_some() {
            (self, Seq::empty())
        } else {
            match event {
                PublisherEvent::Frame(Frame::Message(ServerToPublisher::Pong)) => (
                    PublisherClientModel { heartbeat: self.heartbeat.heard(now), ..self },
                    Seq::empty(),
                ),
                PublisherEvent::Frame(_) => self.close(
                    Outcome::Failed(SessionError::Protocol(ProtocolViolation::PongExpected)),
                ),
                PublisherEvent::TransportClosed => self.close(Outcome::Failed(SessionError::Transport)),
                PublisherEvent::TransportError => self.close(Outcome::Failed(SessionError::Transport)),
                PublisherEvent::PingTick => (
                    PublisherClientModel { heartbeat: self.heartbeat.pinged(now), ..self },
                    if self.heartbeat.pingpong {
                        seq![PublisherAction::Send(PublisherToServer::Ping)]
                    } else {
                        Seq::empty()
                    },
                ),
                PublisherEvent::Tick => if self.heartbeat.timed_out(now) {
                    PublisherClientModel { heartbeat: self.heartbeat.looked(now), ..self }.close(
                        Outcome::Failed(SessionError::LivenessTimeout),
                    )
                } else {
                    (self, Seq::empty())
                },
                PublisherEvent::Domain(DomainEvent::Notes { notes, chord }) => (
                    self,
                    seq![PublisherAction::Send(publication_of(notes, chord))],
                ),
                PublisherEvent::Domain(DomainEvent::SongChord(chord)) => (
                    self,
                    seq![
                        PublisherAction::Send(PublisherToServer::PublishChord(chord)),
                        PublisherAction::Send(PublisherToServer::PublishSilence),
                    ],
                ),
                PublisherEvent::DomainEnded => self.close(Outcome::Ended),
            }
        }
    }

    /// The session after `event` at time `now`.
    pub open spec fn after(self, now: nat, event: PublisherEvent) -> PublisherClientModel {
        self.outcome(now, event).0
    }
}

/// A publisher's session.
#[derive(Debug)]
pub struct PublisherClient {
    finished: Option<Outcome>,
    heartbeat: Heartbeat,
}

impl View for PublisherClient {
    type V = PublisherClientModel;

    closed spec fn view(&self) -> PublisherClientModel {
        PublisherClientModel { finished: self.finished, heartbeat: self.heartbeat@ }
    }
}

impl PublisherClient {
    /// The session of a publisher that has just announced itself.
    pub fn new(pingpong: bool) -> (client: PublisherClient)
        ensures
            client@ == PublisherClientModel::fresh(pingpong),
    {
        PublisherClient { finished: None, heartbeat: Heartbeat::new(pingpong) }
    }

    /// The session of a publisher that has just announced itself,
    /// gives the relay `delay` milliseconds to answer a ping and bears
    /// `silence` milliseconds of silence.
    pub fn configured(pingpong: bool, delay: u64, silence: u64) -> (client: PublisherClient)
        ensures
            client@ == PublisherClientModel::configured(pingpong, delay as nat, silence as nat),
    {
        PublisherClient { finished: None, heartbeat: Heartbeat::configured(pingpong, delay, silence) }
    }

    /// How the session ended, once it has.
    pub fn finished(&self) -> (finished: Option<Outcome>)
        ensures
            finished == self@.finished,
    {
        self.finished
    }

    /// The time at which the caller is to send the next `Tick`, where a
    /// clock of 64 bits can reach it.
    pub fn wake_at(&self) -> (at: Option<u64>)
        ensures
            match at {
                Some(time) => self@.heartbeat.wake_at() == Some(time as nat),
                None => !(self@.heartbeat.wake_at() matches Some(time) && time <= u64::MAX),
            },
    {
        self.heartbeat.wake_at()
    }

    fn close(&mut self, outcome: Outcome) -> (actions: Vec<PublisherAction>)
        ensures
            (final(self)@, actions@) == old(self)@.close(outcome),
    {
        self.finished = Some(outcome);
        let actions = vec![PublisherAction::Close(outcome)];
        assert(actions@ =~= seq![PublisherAction::Close(outcome)]);
        actions
    }

    /// Takes one event at time `now`, moves the session on, and says what
    /// the caller is to do, in order.
    pub fn step(&mut self, now: u64, event: PublisherEvent) -> (actions: Vec<PublisherAction>)
        ensures
            (final(self)@, actions@) == old(self)@.outcome(now as nat, event),
    {
        if self.finished.is_some() {
            return Vec::new();
        }
        match event {
            PublisherEvent::Frame(Frame::Message(ServerToPublisher::Pong)) => {
                self.heartbeat.hear(now);
                Vec::new()
            },
            PublisherEvent::Frame(_) => self.close(
                Outcome::Failed(SessionError::Protocol(ProtocolViolation::PongExpected)),
            ),
            PublisherEvent::TransportClosed => self.close(Outcome::Failed(SessionError::Transport)),
            PublisherEvent::TransportError => self.close(Outcome::Failed(SessionError::Transport)),
            PublisherEvent::PingTick => {
                if self.heartbeat.ping(now) {
                    let actions = vec![PublisherAction::Send(PublisherToServer::Ping)];
                    assert(actions@ =~= seq![PublisherAction::Send(PublisherToServer::Ping)]);
                    actions
                } else {
                    Vec::new()
                }
            },
            PublisherEvent::Tick => {
                if self.heartbeat.look(now) {
                    self.close(Outcome::Failed(SessionError::LivenessTimeout))
                } else {
                    Vec::new()
                }
            },
            PublisherEvent::Domain(DomainEvent::Notes { notes, chord }) => {
                let actions = vec![PublisherAction::Send(publication(notes, chord))];
                assert(actions@ =~= seq![PublisherAction::Send(publication_of(notes, chord))]);
                actions
            },
            PublisherEvent::Domain(DomainEvent::SongChord(chord)) => {
                let actions = vec![
                    PublisherAction::Send(PublisherToServer::PublishChord(chord)),
                    PublisherAction::Send(PublisherToServer::PublishSilence),
                ];
                assert(actions@ =~= seq![
                    PublisherAction::Send(PublisherToServer::PublishChord(chord)),
                    PublisherAction::Send(PublisherToServer::PublishSilence),
                ]);
                actions
            },
            PublisherEvent::DomainEnded => self.close(Outcome::Ended),
        }
    }
}

/// A client that pings at time `pinged` gives up at the first look at the
/// clock that comes the allowed delay or more after the ping, unless the
/// relay is heard before; and it does not give up before that, unless the
/// relay has been silent for too long.
pub proof fn lemma_silent_relay_times_out(heartbeat: HeartbeatModel, pinged: nat, now: nat)
    requires
        heartbeat.pingpong,
        heartbeat.pong.timer != crate::watchdog::Timer::Fired,
    ensures
        heartbeat.pinged(pinged).timed_out(now) <==> now >= pinged + heartbeat.pong.timeout
            || heartbeat.liveness.due(now),
{
}

/// A client that has heard the relay at time `heard` gives up, as long as
/// it sends no ping, when the relay has been silent for the silence that
/// the client bears, and not before. A client without `pingpong` never
/// gives up.
pub proof fn lemma_heard_relay_is_alive(heartbeat: HeartbeatModel, heard: nat, now: nat)
    requires
        heartbeat.liveness.timer != crate::watchdog::Timer::Fired,
    ensures
        heartbeat.heard(heard).timed_out(now) <==> heartbeat.pingpong && now >= heard
            + heartbeat.liveness.timeout,
        !heartbeat.pingpong ==> !heartbeat.timed_out(now) && heartbeat.pinged(heard) == heartbeat
            && heartbeat.heard(heard) == heartbeat,
{
}

} // verus!
