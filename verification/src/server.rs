//! The relay's side of a connection: the handshake, and what a publisher's
//! and a consumer's session do with each thing that happens.
//!
//! A session is a value. The caller owns the socket, the hub and the clock:
//! it hands each event to [`ServerSession::step`] with the time, and carries
//! out the action that comes back.

use crate::hub::{Hub, HubModel, Received, ReceiveHandle, ReceivedView, Watch};
use crate::outcome::{Outcome, ProtocolViolation, SessionError};
use crate::protocol::{
    ChordDescriptor, ClientToServer, ConsumerToServer, Frame, PublisherToServer, Role,
    ServerToConsumer, ServerToPublisher, ServerToPublisherView, PING_AWAIT_INTERVAL,
    PROTOCOL_VERSION,
};
use crate::watchdog::{Signal, Watchdog, WatchdogModel};
use vstd::prelude::*;

verus! {

/// Where a connection stands. It moves forward only.
#[derive(Clone, Copy, Debug, PartialEq, Eq, Structural)]
pub enum SessionState {
    AwaitingVersion,
    AwaitingIdentity,
    Active(Role),
    Closed(Outcome),
}

/// What the hub handed to a consumer's subscription.
#[derive(Clone, Debug, PartialEq, Eq)]
pub enum HubDelivery {
    /// The next event.
    Event(ServerToConsumer),
    /// The consumer was too slow, and so many events are lost to it.
    Lagged(u64),
}

/// What a read from the hub is to a consumer's session.
pub open spec fn delivery_of(received: ReceivedView<ServerToConsumer>) -> Option<HubDelivery> {
    match received {
        ReceivedView::Event(event) => Some(HubDelivery::Event(event)),
        ReceivedView::Lagged(lost) => Some(HubDelivery::Lagged(lost as u64)),
        ReceivedView::Empty => None,
    }
}

/// A copy of an event.
fn copy_of(event: &ServerToConsumer) -> (copy: ServerToConsumer)
    ensures
        copy == *event,
{
    match event {
        ServerToConsumer::ChordEvent(chord) => ServerToConsumer::ChordEvent(
            ChordDescriptor(chord.0.clone()),
        ),
        ServerToConsumer::PitchesEvent(pitches) => ServerToConsumer::PitchesEvent(*pitches),
        ServerToConsumer::Silence => ServerToConsumer::Silence,
        ServerToConsumer::Pong => ServerToConsumer::Pong,
    }
}

/// Reads the hub for a consumer's subscription and moves its handle on:
/// the next event, the number of events that the consumer has lost, or
/// nothing where the hub has nothing new.
pub fn next_delivery(hub: &Hub<ServerToConsumer>, handle: &mut ReceiveHandle) -> (delivery: Option<
    HubDelivery,
>)
    requires
        hub.wf(),
    ensures
        delivery == delivery_of(hub@.read(old(handle)@)),
        final(handle)@ == hub@.advance(old(handle)@),
{
    match hub.recv(handle) {
        Received::Event(event) => Some(HubDelivery::Event(copy_of(event))),
        Received::Lagged(lost) => Some(HubDelivery::Lagged(lost)),
        Received::Empty => None,
    }
}

/// What can happen to a connection.
#[derive(Clone, Debug, PartialEq, Eq)]
pub enum ServerEvent {
    /// The client sent a frame.
    Frame(Frame<ClientToServer>),
    /// The client closed the connection.
    TransportClosed,
    /// Reading from the connection failed.
    TransportError,
    /// The hub has something for this connection's subscription.
    Hub(HubDelivery),
    /// Time has passed.
    Tick,
}

/// What the relay does with a publisher's frame: it hands an event to the
/// consumers, or it answers the publisher.
#[derive(Clone, Debug, PartialEq, Eq)]
pub enum Response {
    Forward(ServerToConsumer),
    ReturnToSender(ServerToPublisher),
}

/// A [`Response`] as a value.
pub enum ResponseView {
    Forward(ServerToConsumer),
    ReturnToSender(ServerToPublisherView),
}

impl View for Response {
    type V = ResponseView;

    open spec fn view(&self) -> ResponseView {
        match *self {
            Response::Forward(event) => ResponseView::Forward(event),
            Response::ReturnToSender(reply) => ResponseView::ReturnToSender(reply@),
        }
    }
}

/// What the caller is to do after a step.
#[derive(Clone, Debug, PartialEq, Eq)]
pub enum ServerAction {
    Nothing,
    /// The handshake is done: the client is a `role` that calls itself `id`.
    /// A consumer is to be subscribed to the hub now.
    Welcome { role: Role, id: String },
    /// Hand the event to the hub.
    Publish(ServerToConsumer),
    /// Send the reply to the publisher on this connection.
    ReplyToPublisher(ServerToPublisher),
    /// Send the event to the consumer on this connection.
    SendToConsumer(ServerToConsumer),
    /// Close the connection: the session is over, and this is how it ended.
    Close(Outcome),
}

/// A [`ServerAction`] as a value.
pub enum ServerActionView {
    Nothing,
    Welcome { role: Role, id: Seq<char> },
    Publish(ServerToConsumer),
    ReplyToPublisher(ServerToPublisherView),
    SendToConsumer(ServerToConsumer),
    Close(Outcome),
}

impl View for ServerAction {
    type V = ServerActionView;

    open spec fn view(&self) -> ServerActionView {
        match *self {
            ServerAction::Nothing => ServerActionView::Nothing,
            ServerAction::Welcome { role, id } => ServerActionView::Welcome { role, id: id@ },
            ServerAction::Publish(event) => ServerActionView::Publish(event),
            ServerAction::ReplyToPublisher(reply) => ServerActionView::ReplyToPublisher(reply@),
            ServerAction::SendToConsumer(event) => ServerActionView::SendToConsumer(event),
            ServerAction::Close(end) => ServerActionView::Close(end),
        }
    }
}

/// The reply to a frame that is no text.
pub open spec fn only_text_allowed() -> Seq<char> {
    "Only text messages allowed"@
}

/// The reply to a text that is no message.
pub open spec fn deserialization_failed() -> Seq<char> {
    "Deserialization failed"@
}

/// The reply to a message that has no place in a publisher's session.
pub open spec fn unexpected_message() -> Seq<char> {
    "Unexpected message"@
}

/// The version that a frame announces, if it announces one.
pub open spec fn announced_version(frame: Frame<ClientToServer>) -> Option<u32> {
    match frame {
        Frame::Message(ClientToServer::Publisher(PublisherToServer::ProtocolVersion(version))) => Some(
            version,
        ),
        Frame::Message(ClientToServer::Consumer(ConsumerToServer::ProtocolVersion(version))) => Some(
            version,
        ),
        _ => None,
    }
}

/// Whether a frame is a ping, from whichever role.
pub open spec fn is_ping(frame: Frame<ClientToServer>) -> bool {
    frame == Frame::Message(ClientToServer::Publisher(PublisherToServer::Ping)) || frame
        == Frame::Message(ClientToServer::Consumer(ConsumerToServer::Ping))
}

/// What the relay does with a publisher's frame.
pub open spec fn publisher_response(frame: Frame<ClientToServer>) -> ResponseView {
    match frame {
        Frame::Message(ClientToServer::Publisher(PublisherToServer::PublishChord(chord))) =>
            ResponseView::Forward(ServerToConsumer::ChordEvent(chord)),
        Frame::Message(ClientToServer::Publisher(PublisherToServer::PublishPitches(pitches))) =>
            ResponseView::Forward(ServerToConsumer::PitchesEvent(pitches)),
        Frame::Message(ClientToServer::Publisher(PublisherToServer::PublishSilence)) =>
            ResponseView::Forward(ServerToConsumer::Silence),
        Frame::Message(ClientToServer::Publisher(PublisherToServer::Ping)) =>
            ResponseView::ReturnToSender(ServerToPublisherView::Pong),
        Frame::Message(ClientToServer::Consumer(ConsumerToServer::Ping)) =>
            ResponseView::ReturnToSender(ServerToPublisherView::Pong),
        Frame::Message(ClientToServer::Publisher(PublisherToServer::IAmPublisher { id })) =>
            ResponseView::ReturnToSender(ServerToPublisherView::AlreadyIdentified),
        Frame::Message(_) => ResponseView::ReturnToSender(
            ServerToPublisherView::ProtocolError(unexpected_message()),
        ),
        Frame::Undecodable => ResponseView::ReturnToSender(
            ServerToPublisherView::ProtocolError(deserialization_failed()),
        ),
        Frame::NonText => ResponseView::ReturnToSender(
            ServerToPublisherView::ProtocolError(only_text_allowed()),
        ),
    }
}

/// Reads the protocol version out of the first frame of a connection.
pub fn determine_protocol_version(version: &Frame<ClientToServer>) -> (announced: Result<
    u32,
    ProtocolViolation,
>)
    ensures
        match announced {
            Ok(number) => announced_version(*version) == Some(number),
            Err(violation) => announced_version(*version).is_none() && violation
                == ProtocolViolation::VersionExpected,
        },
{
    match version {
        Frame::Message(ClientToServer::Publisher(PublisherToServer::ProtocolVersion(number))) => Ok(
            *number,
        ),
        Frame::Message(ClientToServer::Consumer(ConsumerToServer::ProtocolVersion(number))) => Ok(
            *number,
        ),
        _ => Err(ProtocolViolation::VersionExpected),
    }
}

/// Decides what the relay does with a frame that a publisher sent.
pub fn handle_message(msg: Frame<ClientToServer>) -> (response: Response)
    ensures
        response@ == publisher_response(msg),
{
    match msg {
        Frame::Message(ClientToServer::Publisher(PublisherToServer::PublishChord(chord))) => {
            Response::Forward(ServerToConsumer::ChordEvent(chord))
        },
        Frame::Message(ClientToServer::Publisher(PublisherToServer::PublishPitches(pitches))) => {
            Response::Forward(ServerToConsumer::PitchesEvent(pitches))
        },
        Frame::Message(ClientToServer::Publisher(PublisherToServer::PublishSilence)) => {
            Response::Forward(ServerToConsumer::Silence)
        },
        Frame::Message(ClientToServer::Publisher(PublisherToServer::Ping)) => {
            Response::ReturnToSender(ServerToPublisher::Pong)
        },
        Frame::Message(ClientToServer::Consumer(ConsumerToServer::Ping)) => {
            Response::ReturnToSender(ServerToPublisher::Pong)
        },
        Frame::Message(ClientToServer::Publisher(PublisherToServer::IAmPublisher { id: _ })) => {
            Response::ReturnToSender(ServerToPublisher::AlreadyIdentified)
        },
        Frame::Message(_) => {
            Response::ReturnToSender(ServerToPublisher::ProtocolError("Unexpected message".to_owned()))
        },
        Frame::Undecodable => {
            Response::ReturnToSender(
                ServerToPublisher::ProtocolError("Deserialization failed".to_owned()),
            )
        },
        Frame::NonText => {
            Response::ReturnToSender(
                ServerToPublisher::ProtocolError("Only text messages allowed".to_owned()),
            )
        },
    }
}

/// Decides what the relay does with a frame that a consumer sent: a ping is
/// answered, and anything else breaks the protocol.
pub fn handle_consumer_message(msg: &Frame<ClientToServer>) -> (reply: Result<
    ServerToConsumer,
    ProtocolViolation,
>)
    ensures
        is_ping(*msg) ==> reply == Ok::<ServerToConsumer, ProtocolViolation>(ServerToConsumer::Pong),
        !is_ping(*msg) ==> reply == Err::<ServerToConsumer, ProtocolViolation>(
            ProtocolViolation::PingExpected,
        ),
{
    match msg {
        Frame::Message(ClientToServer::Publisher(PublisherToServer::Ping)) => Ok(
            ServerToConsumer::Pong,
        ),
        Frame::Message(ClientToServer::Consumer(ConsumerToServer::Ping)) => Ok(
            ServerToConsumer::Pong,
        ),
        _ => Err(ProtocolViolation::PingExpected),
    }
}

/// A session, as a value.
pub struct ServerSessionModel {
    pub state: SessionState,
    /// The protocol version that the relay speaks on this connection.
    pub version: u32,
    /// Whether a silent peer ends the session.
    pub pingpong: bool,
    /// The watchdog that waits for the peer. Its timeout is the silence
    /// that the relay bears.
    pub watchdog: WatchdogModel,
}

impl ServerSessionModel {
    /// The session of a connection that was just accepted, for a relay
    /// that speaks `version` and bears `silence` milliseconds of silence.
    pub open spec fn configured(version: u32, pingpong: bool, silence: nat) -> ServerSessionModel {
        ServerSessionModel {
            state: SessionState::AwaitingVersion,
            version,
            pingpong,
            watchdog: WatchdogModel::fresh(silence),
        }
    }

    /// The session of a connection that was just accepted, for a relay
    /// that speaks [`PROTOCOL_VERSION`] and bears [`PING_AWAIT_INTERVAL`]
    /// of silence.
    pub open spec fn fresh(pingpong: bool) -> ServerSessionModel {
        ServerSessionModel::configured(PROTOCOL_VERSION, pingpong, PING_AWAIT_INTERVAL as nat)
    }

    /// The end of the session, and the action that goes with it.
    pub open spec fn close(self, outcome: Outcome) -> (ServerSessionModel, ServerActionView) {
        (
            ServerSessionModel { state: SessionState::Closed(outcome), ..self },
            ServerActionView::Close(outcome),
        )
    }

    /// The session with its watchdog reset at time `now`.
    pub open spec fn heard(self, now: nat) -> ServerSessionModel {
        ServerSessionModel { watchdog: self.watchdog.signal(Signal::Reset, now), ..self }
    }

    /// The session and the action after `frame` came in at time `now`.
    pub open spec fn on_frame(self, now: nat, frame: Frame<ClientToServer>) -> (
        ServerSessionModel,
        ServerActionView,
    ) {
        match self.state {
            SessionState::AwaitingVersion => match announced_version(frame) {
                Some(version) => if version == self.version {
                    (
                        ServerSessionModel { state: SessionState::AwaitingIdentity, ..self },
                        ServerActionView::Nothing,
                    )
                } else {
                    self.close(
                        Outcome::Failed(SessionError::Protocol(ProtocolViolation::VersionMismatch)),
                    )
                },
                None => self.close(
                    Outcome::Failed(SessionError::Protocol(ProtocolViolation::VersionExpected)),
                ),
            },
            SessionState::AwaitingIdentity => match frame {
                Frame::Message(ClientToServer::Publisher(PublisherToServer::IAmPublisher { id })) => (
                    ServerSessionModel { state: SessionState::Active(Role::Publisher), ..self },
                    ServerActionView::Welcome { role: Role::Publisher, id: id@ },
                ),
                Frame::Message(ClientToServer::Consumer(ConsumerToServer::IAmConsumer { id })) => (
                    ServerSessionModel { state: SessionState::Active(Role::Consumer), ..self },
                    ServerActionView::Welcome { role: Role::Consumer, id: id@ },
                ),
                _ => self.close(
                    Outcome::Failed(SessionError::Protocol(ProtocolViolation::IdentityExpected)),
                ),
            },
            SessionState::Active(Role::Publisher) => (
                self.heard(now),
                match publisher_response(frame) {
                    ResponseView::Forward(event) => ServerActionView::Publish(event),
                    ResponseView::ReturnToSender(reply) => ServerActionView::ReplyToPublisher(reply),
                },
            ),
            SessionState::Active(Role::Consumer) => if is_ping(frame) {
                (self.heard(now), ServerActionView::SendToConsumer(ServerToConsumer::Pong))
            } else {
                self.close(Outcome::Failed(SessionError::Protocol(ProtocolViolation::PingExpected)))
            },
            SessionState::Closed(_) => (self, ServerActionView::Nothing),
        }
    }

    /// Whether the watchdog ends the session at time `now`.
    pub open spec fn timed_out(self, now: nat) -> bool {
        self.state is Active && self.pingpong && self.watchdog.due(now)
    }

    /// The session and the action after `event` at time `now`.
    pub open spec fn outcome(self, now: nat, event: ServerEvent) -> (
        ServerSessionModel,
        ServerActionView,
    ) {
        match event {
            ServerEvent::Frame(frame) => self.on_frame(now, frame),
            ServerEvent::TransportClosed => match self.state {
                SessionState::Active(_) => self.close(Outcome::Ended),
                SessionState::Closed(_) => (self, ServerActionView::Nothing),
                _ => self.close(Outcome::Failed(SessionError::Transport)),
            },
            ServerEvent::TransportError => match self.state {
                SessionState::Closed(_) => (self, ServerActionView::Nothing),
                _ => self.close(Outcome::Failed(SessionError::Transport)),
            },
            ServerEvent::Hub(delivery) => match (self.state, delivery) {
                (SessionState::Active(Role::Consumer), HubDelivery::Event(event)) => (
                    self,
                    ServerActionView::SendToConsumer(event),
                ),
                _ => (self, ServerActionView::Nothing),
            },
            ServerEvent::Tick => if self.timed_out(now) {
                ServerSessionModel { watchdog: self.watchdog.poll(now), ..self }.close(
                    Outcome::Failed(SessionError::LivenessTimeout),
                )
            } else {
                (self, ServerActionView::Nothing)
            },
        }
    }

    /// The session after `event` at time `now`.
    pub open spec fn after(self, now: nat, event: ServerEvent) -> ServerSessionModel {
        self.outcome(now, event).0
    }

    /// The time at which the caller is to send the next `Tick`, if any.
    pub open spec fn wake_at(self) -> Option<nat> {
        if self.state is Active && self.pingpong {
            self.watchdog.deadline()
        } else {
            None
        }
    }
}

/// The relay's side of one connection.
#[derive(Debug)]
pub struct ServerSession {
    state: SessionState,
    version: u32,
    pingpong: bool,
    watchdog: Watchdog,
}

impl View for ServerSession {
    type V = ServerSessionModel;

    closed spec fn view(&self) -> ServerSessionModel {
        ServerSessionModel {
            state: self.state,
            version: self.version,
            pingpong: self.pingpong,
            watchdog: self.watchdog@,
        }
    }
}

impl ServerSession {
    /// The session of a connection that was just accepted. With `pingpong`
    /// a peer that stays silent for [`PING_AWAIT_INTERVAL`] ends the session.
    pub fn new(pingpong: bool) -> (session: ServerSession)
        ensures
            session@ == ServerSessionModel::fresh(pingpong),
    {
        ServerSession::configured(PROTOCOL_VERSION, pingpong, PING_AWAIT_INTERVAL)
    }

    /// The session of a connection that was just accepted, for a relay
    /// that speaks `version`. With `pingpong` a peer that stays silent for
    /// `silence` milliseconds ends the session.
    pub fn configured(version: u32, pingpong: bool, silence: u64) -> (session: ServerSession)
        ensures
            session@ == ServerSessionModel::configured(version, pingpong, silence as nat),
    {
        ServerSession {
            state: SessionState::AwaitingVersion,
            version,
            pingpong,
            watchdog: Watchdog::with_timeout(silence),
        }
    }

    /// Where the connection stands.
    pub fn state(&self) -> (state: SessionState)
        ensures
            state == self@.state,
    {
        self.state
    }

    /// What the client is, once it has said so and while the session lasts.
    pub fn role(&self) -> (role: Option<Role>)
        ensures
            role == (match self@.state {
                SessionState::Active(role) => Some(role),
                _ => None,
            }),
    {
        match self.state {
            SessionState::Active(role) => Some(role),
            _ => None,
        }
    }

    /// The time at which the caller is to send the next `Tick`, where a
    /// clock of 64 bits can reach it.
    pub fn wake_at(&self) -> (at: Option<u64>)
        ensures
            match at {
                Some(time) => self@.wake_at() == Some(time as nat),
                None => !(self@.wake_at() matches Some(time) && time <= u64::MAX),
            },
    {
        match self.state {
            SessionState::Active(_) => if self.pingpong {
                self.watchdog.deadline()
            } else {
                None
            },
            _ => None,
        }
    }

    fn close(&mut self, outcome: Outcome) -> (action: ServerAction)
        ensures
            (final(self)@, action@) == old(self)@.close(outcome),
    {
        self.state = SessionState::Closed(outcome);
        ServerAction::Close(outcome)
    }

    fn on_frame(&mut self, now: u64, frame: Frame<ClientToServer>) -> (action: ServerAction)
        ensures
            (final(self)@, action@) == old(self)@.on_frame(now as nat, frame),
    {
        match self.state {
            SessionState::AwaitingVersion => match determine_protocol_version(&frame) {
                Ok(version) => if version == self.version {
                    self.state = SessionState::AwaitingIdentity;
                    ServerAction::Nothing
                } else {
                    self.close(
                        Outcome::Failed(SessionError::Protocol(ProtocolViolation::VersionMismatch)),
                    )
                },
                Err(violation) => self.close(Outcome::Failed(SessionError::Protocol(violation))),
            },
            SessionState::AwaitingIdentity => match frame {
                Frame::Message(ClientToServer::Publisher(PublisherToServer::IAmPublisher { id })) => {
                    self.state = SessionState::Active(Role::Publisher);
                    ServerAction::Welcome { role: Role::Publisher, id }
                },
                Frame::Message(ClientToServer::Consumer(ConsumerToServer::IAmConsumer { id })) => {
                    self.state = SessionState::Active(Role::Consumer);
                    ServerAction::Welcome { role: Role::Consumer, id }
                },
                _ => self.close(
                    Outcome::Failed(SessionError::Protocol(ProtocolViolation::IdentityExpected)),
                ),
            },
            SessionState::Active(Role::Publisher) => {
                self.watchdog.signal(Signal::Reset, now);
                match handle_message(frame) {
                    Response::Forward(event) => ServerAction::Publish(event),
                    Response::ReturnToSender(reply) => ServerAction::ReplyToPublisher(reply),
                }
            },
            SessionState::Active(Role::Consumer) => match handle_consumer_message(&frame) {
                Ok(reply) => {
                    self.watchdog.signal(Signal::Reset, now);
                    ServerAction::SendToConsumer(reply)
                },
                Err(violation) => self.close(Outcome::Failed(SessionError::Protocol(violation))),
            },
            SessionState::Closed(_) => ServerAction::Nothing,
        }
    }

    /// Takes one event at time `now`, moves the session on, and says what
    /// the caller is to do.
    pub fn step(&mut self, now: u64, event: ServerEvent) -> (action: ServerAction)
        ensures
            (final(self)@, action@) == old(self)@.outcome(now as nat, event),
    {
        match event {
            ServerEvent::Frame(frame) => self.on_frame(now, frame),
            ServerEvent::TransportClosed => match self.state {
                SessionState::Active(_) => self.close(Outcome::Ended),
                SessionState::Closed(_) => ServerAction::Nothing,
                _ => self.close(Outcome::Failed(SessionError::Transport)),
            },
            ServerEvent::TransportError => match self.state {
                SessionState::Closed(_) => ServerAction::Nothing,
                _ => self.close(Outcome::Failed(SessionError::Transport)),
            },
            ServerEvent::Hub(delivery) => match (self.state, delivery) {
                (SessionState::Active(Role::Consumer), HubDelivery::Event(event)) => {
                    ServerAction::SendToConsumer(event)
                },
                _ => ServerAction::Nothing,
            },
            ServerEvent::Tick => match self.state {
                SessionState::Active(_) => {
                    if self.pingpong {
                        match self.watchdog.poll(now) {
                            Some(_) => self.close(Outcome::Failed(SessionError::LivenessTimeout)),
                            None => ServerAction::Nothing,
                        }
                    } else {
                        ServerAction::Nothing
                    }
                },
                _ => ServerAction::Nothing,
            },
        }
    }
}

/// How far a connection has come.
pub open spec fn rank(state: SessionState) -> nat {
    match state {
        SessionState::AwaitingVersion => 0,
        SessionState::AwaitingIdentity => 1,
        SessionState::Active(_) => 2,
        SessionState::Closed(_) => 3,
    }
}

/// Whether `frame` says that the client is a `role`.
pub open spec fn identifies_as(frame: Frame<ClientToServer>, role: Role) -> bool {
    match role {
        Role::Publisher => frame matches Frame::Message(
            ClientToServer::Publisher(PublisherToServer::IAmPublisher { .. }),
        ),
        Role::Consumer => frame matches Frame::Message(
            ClientToServer::Consumer(ConsumerToServer::IAmConsumer { .. }),
        ),
    }
}

/// The events at their times, one after the other.
pub open spec fn run(session: ServerSessionModel, events: Seq<(nat, ServerEvent)>) -> ServerSessionModel
    decreases events.len(),
{
    if events.len() == 0 {
        session
    } else {
        run(session.after(events[0].0, events[0].1), events.drop_first())
    }
}

/// How often a session becomes active over `events`.
pub open spec fn activations(session: ServerSessionModel, events: Seq<(nat, ServerEvent)>) -> nat
    decreases events.len(),
{
    if events.len() == 0 {
        0
    } else {
        let next = session.after(events[0].0, events[0].1);
        let now: nat = if next.state is Active && !(session.state is Active) {
            1
        } else {
            0
        };
        now + activations(next, events.drop_first())
    }
}

/// A connection becomes active with its second frame, and only so: the first
/// frame announces the relay's version and the second says what the client
/// is. After any other two frames the connection is closed for a breach of
/// the protocol, and it was never active.
pub proof fn lemma_handshake(
    fresh: ServerSessionModel,
    first: (nat, Frame<ClientToServer>),
    second: (nat, Frame<ClientToServer>),
    role: Role,
)
    requires
        fresh.state == SessionState::AwaitingVersion,
    ensures
        ({
            let one = fresh.after(first.0, ServerEvent::Frame(first.1));
            let two = one.after(second.0, ServerEvent::Frame(second.1));
            let valid = announced_version(first.1) == Some(fresh.version);
            &&& !(one.state is Active)
            &&& two.state == SessionState::Active(role) <==> valid && identifies_as(second.1, role)
            &&& !(two.state is Active) ==> two.state matches SessionState::Closed(
                Outcome::Failed(SessionError::Protocol(_)),
            )
        }),
{
}

/// A session never moves backwards: an active session stays what it is
/// until it closes, and a closed session stays closed as it was.
pub proof fn lemma_moves_forward(session: ServerSessionModel, now: nat, event: ServerEvent)
    ensures
        rank(session.after(now, event).state) >= rank(session.state),
        session.state is Active ==> session.after(now, event).state == session.state
            || session.after(now, event).state is Closed,
        session.state is Closed ==> session.outcome(now, event) == (session, ServerActionView::Nothing),
{
}

/// Whatever happens to a connection, it becomes active at most once.
pub proof fn lemma_active_at_most_once(session: ServerSessionModel, events: Seq<(nat, ServerEvent)>)
    ensures
        activations(session, events) <= 1,
        rank(session.state) >= 2 ==> activations(session, events) == 0,
    decreases events.len(),
{
    if events.len() > 0 {
        lemma_moves_forward(session, events[0].0, events[0].1);
        lemma_active_at_most_once(session.after(events[0].0, events[0].1), events.drop_first());
    }
}

/// A consumer may send pings and nothing else: any other frame ends its
/// session as a breach of the protocol.
pub proof fn lemma_consumer_may_only_ping(
    session: ServerSessionModel,
    now: nat,
    frame: Frame<ClientToServer>,
)
    requires
        session.state == SessionState::Active(Role::Consumer),
        !is_ping(frame),
    ensures
        session.outcome(now, ServerEvent::Frame(frame)).0.state == SessionState::Closed(
            Outcome::Failed(SessionError::Protocol(ProtocolViolation::PingExpected)),
        ),
        session.outcome(now, ServerEvent::Frame(frame)).1 == ServerActionView::Close(
            Outcome::Failed(SessionError::Protocol(ProtocolViolation::PingExpected)),
        ),
{
}

/// A frame never ends a publisher's session: whatever a publisher sends,
/// the session stays active, the watchdog is reset, and the frame is
/// answered or handed to the hub as [`publisher_response`] says.
pub proof fn lemma_publisher_stays(session: ServerSessionModel, now: nat, frame: Frame<ClientToServer>)
    requires
        session.state == SessionState::Active(Role::Publisher),
    ensures
        session.after(now, ServerEvent::Frame(frame)).state == session.state,
        session.after(now, ServerEvent::Frame(frame)).watchdog == session.watchdog.signal(
            Signal::Reset,
            now,
        ),
        session.outcome(now, ServerEvent::Frame(frame)).1 == (match publisher_response(frame) {
            ResponseView::Forward(event) => ServerActionView::Publish(event),
            ResponseView::ReturnToSender(reply) => ServerActionView::ReplyToPublisher(reply),
        }),
{
}

/// With `pingpong`, a peer that was heard at time `heard` and then is
/// silent ends the session at the first tick that comes the watchdog's
/// timeout or more after `heard`, and at no tick before. Without
/// `pingpong` no tick ends a session.
pub proof fn lemma_silent_peer_times_out(session: ServerSessionModel, heard: nat, now: nat)
    requires
        session.state is Active,
        session.watchdog.timer != crate::watchdog::Timer::Fired,
    ensures
        session.heard(heard).timed_out(now) <==> session.pingpong && now >= heard
            + session.watchdog.timeout,
        session.heard(heard).timed_out(now) ==> session.heard(heard).after(now, ServerEvent::Tick).state
            == SessionState::Closed(Outcome::Failed(SessionError::LivenessTimeout)),
        !session.heard(heard).timed_out(now) ==> session.heard(heard).after(now, ServerEvent::Tick)
            == session.heard(heard),
{
}

/// What a publisher publishes reaches a consumer that subscribed before:
/// the publisher's session hands the chord to the hub, the hub hands it to
/// the consumer's handle, and the consumer's session sends it on, the same
/// chord at every step.
pub proof fn lemma_published_chord_reaches_consumer(
    publisher: ServerSessionModel,
    consumer: ServerSessionModel,
    hub: HubModel<ServerToConsumer>,
    chord: ChordDescriptor,
    now: nat,
)
    requires
        publisher.state == SessionState::Active(Role::Publisher),
        consumer.state == SessionState::Active(Role::Consumer),
        hub.capacity > 0,
    ensures
        ({
            let watch = Watch::start(hub);
            let frame = Frame::Message(
                ClientToServer::Publisher(PublisherToServer::PublishChord(chord)),
            );
            let event = ServerToConsumer::ChordEvent(chord);
            let after = watch.hub.publish(event);
            &&& publisher.outcome(now, ServerEvent::Frame(frame)).1 == ServerActionView::Publish(event)
            &&& delivery_of(after.read(watch.position)) == Some(HubDelivery::Event(event))
            &&& consumer.outcome(now, ServerEvent::Hub(HubDelivery::Event(event))).1
                == ServerActionView::SendToConsumer(event)
        }),
{
}

} // verus!
