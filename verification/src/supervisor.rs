//! The loop that keeps a client connected: connect, run the session, and
//! after every end wait a little and connect again.
//!
//! The wait is a fixed delay plus a random jitter, so that the clients of a
//! relay that went away do not all come back in the same instant.

use crate::outcome::Outcome;
use crate::protocol::CLIENT_RECONNECT_DURATION;
use rand::Rng;
use vstd::prelude::*;

verus! {

/// The largest jitter, in milliseconds, that is added to the delay.
pub const RECONNECT_JITTER: u64 = 250;

/// Calls `gen_range` of `rand` on the thread's generator with the range
/// from 0 to `bound`, both included. The result is random; all that is
/// claimed of it is that it lies in that range.
#[verifier::external_body]
fn random_up_to(bound: u64) -> (drawn: u64)
    ensures
        drawn <= bound,
{
    rand::thread_rng().gen_range(0..=bound)
}

/// A random jitter in milliseconds, at most [`RECONNECT_JITTER`].
fn jitter_duration() -> (jitter: u64)
    ensures
        jitter <= RECONNECT_JITTER,
{
    random_up_to(RECONNECT_JITTER)
}

/// What the supervisor learns.
#[derive(Clone, Copy, Debug, PartialEq, Eq, Structural)]
pub enum SupervisorEvent {
    /// The supervisor has just started.
    Started,
    /// The relay could not be reached.
    ConnectFailed,
    /// The connection stands.
    Connected,
    /// The session is over, in this way.
    SessionOver(Outcome),
    /// The wait is over.
    Waited,
}

/// What the supervisor does next. There is no way out of the loop.
#[derive(Clone, Copy, Debug, PartialEq, Eq, Structural)]
pub enum SupervisorAction {
    /// Connect to the relay.
    Connect,
    /// Announce the client and run its session.
    Run,
    /// Wait for so many milliseconds.
    Wait(u64),
}

/// How long a client waits before it connects again: a fixed delay and a
/// random jitter of at most `jitter`, both in milliseconds.
#[derive(Clone, Copy, Debug, PartialEq, Eq, Structural)]
pub struct Backoff {
    pub delay: u64,
    pub jitter: u64,
}

impl Backoff {
    /// The wait of [`CLIENT_RECONNECT_DURATION`] with a jitter of at most
    /// [`RECONNECT_JITTER`].
    pub open spec fn standard() -> Backoff {
        Backoff { delay: CLIENT_RECONNECT_DURATION, jitter: RECONNECT_JITTER }
    }

    /// What the supervisor does after `event`, where `drawn` is the jitter
    /// of a wait: it connects at the start and after a wait, it runs the
    /// session on a connection, and it waits after a connection has failed
    /// and after a session has ended, however it ended.
    pub open spec fn next_action(self, event: SupervisorEvent, drawn: u64) -> SupervisorAction {
        match event {
            SupervisorEvent::Started => SupervisorAction::Connect,
            SupervisorEvent::Waited => SupervisorAction::Connect,
            SupervisorEvent::Connected => SupervisorAction::Run,
            SupervisorEvent::ConnectFailed => SupervisorAction::Wait((self.delay + drawn) as u64),
            SupervisorEvent::SessionOver(_) => SupervisorAction::Wait((self.delay + drawn) as u64),
        }
    }

    /// The wait of [`CLIENT_RECONNECT_DURATION`] with a jitter of at most
    /// [`RECONNECT_JITTER`].
    pub fn new() -> (backoff: Backoff)
        ensures
            backoff == Backoff::standard(),
    {
        Backoff { delay: CLIENT_RECONNECT_DURATION, jitter: RECONNECT_JITTER }
    }

    /// Decides what the supervisor does after `event`, where `drawn` is the
    /// jitter of a wait.
    pub fn supervise_with(&self, event: SupervisorEvent, drawn: u64) -> (action: SupervisorAction)
        requires
            self.delay + drawn <= u64::MAX,
        ensures
            action == self.next_action(event, drawn),
    {
        match event {
            SupervisorEvent::Started => SupervisorAction::Connect,
            SupervisorEvent::Waited => SupervisorAction::Connect,
            SupervisorEvent::Connected => SupervisorAction::Run,
            SupervisorEvent::ConnectFailed => SupervisorAction::Wait(self.delay + drawn),
            SupervisorEvent::SessionOver(_) => SupervisorAction::Wait(self.delay + drawn),
        }
    }

    /// Decides what the supervisor does after `event`, with a jitter drawn
    /// at random.
    pub fn supervise(&self, event: SupervisorEvent) -> (action: SupervisorAction)
        requires
            self.delay + self.jitter <= u64::MAX,
        ensures
            exists|drawn: u64| drawn <= self.jitter && action == self.next_action(event, drawn),
    {
        let drawn = random_up_to(self.jitter);
        self.supervise_with(event, drawn)
    }
}

/// The wait before the next connection, in milliseconds, for a given jitter.
pub fn retry_duration(jitter: u64) -> (wait: u64)
    requires
        CLIENT_RECONNECT_DURATION + jitter <= u64::MAX,
    ensures
        wait == CLIENT_RECONNECT_DURATION + jitter,
{
    CLIENT_RECONNECT_DURATION + jitter
}

/// The wait before the next connection, in milliseconds: the fixed delay
/// and a random jitter on top.
pub fn jittering_retry_duration() -> (wait: u64)
    ensures
        CLIENT_RECONNECT_DURATION <= wait <= CLIENT_RECONNECT_DURATION + RECONNECT_JITTER,
{
    retry_duration(jitter_duration())
}

/// What the supervisor does after `event`, where `jitter` is the jitter of
/// a wait, with the delay [`CLIENT_RECONNECT_DURATION`].
pub open spec fn next_action(event: SupervisorEvent, jitter: u64) -> SupervisorAction {
    Backoff::standard().next_action(event, jitter)
}

/// Decides what the supervisor does after `event`. Whenever a connection
/// has failed or a session has ended, however it ended, the supervisor
/// waits for the fixed delay and `jitter`, and then connects again.
pub fn supervise_with(event: SupervisorEvent, jitter: u64) -> (action: SupervisorAction)
    requires
        CLIENT_RECONNECT_DURATION + jitter <= u64::MAX,
    ensures
        action == next_action(event, jitter),
{
    Backoff::new().supervise_with(event, jitter)
}

/// Decides what the supervisor does after `event`, with a jitter drawn at
/// random.
pub fn supervise(event: SupervisorEvent) -> (action: SupervisorAction)
    ensures
        exists|jitter: u64| jitter <= RECONNECT_JITTER && action == next_action(event, jitter),
{
    let jitter = jitter_duration();
    supervise_with(event, jitter)
}

/// After every failure and every end of a session the supervisor waits at
/// least the fixed delay and at most the delay and the largest jitter, and
/// after the wait it connects again. No event ends the loop.
pub proof fn lemma_reconnects(backoff: Backoff, outcome: Outcome, drawn: u64)
    requires
        drawn <= backoff.jitter,
        backoff.delay + backoff.jitter <= u64::MAX,
    ensures
        backoff.next_action(SupervisorEvent::SessionOver(outcome), drawn) matches SupervisorAction::Wait(
            wait,
        ) && backoff.delay <= wait <= backoff.delay + backoff.jitter,
        backoff.next_action(SupervisorEvent::ConnectFailed, drawn) == backoff.next_action(
            SupervisorEvent::SessionOver(outcome),
            drawn,
        ),
        backoff.next_action(SupervisorEvent::Waited, drawn) == SupervisorAction::Connect,
        backoff.next_action(SupervisorEvent::Started, drawn) == SupervisorAction::Connect,
        backoff.next_action(SupervisorEvent::Connected, drawn) == SupervisorAction::Run,
{
}

} // verus!
