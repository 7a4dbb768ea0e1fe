//! Connection and protocol core of a real-time relay for musical events.
//!
//! Publishers emit chords, note sets and silence; the relay fans them out to
//! every consumer. This crate holds the decisions of that relay and of its
//! clients as functions from state and event to next state and action, and
//! proves what each of them does. Sockets, timers and tasks live with the
//! caller, who tells the time in milliseconds with every event.
//!
//! - [`protocol`]: the messages, and [`wire`]: their text in a frame.
//! - [`watchdog`]: a timeout that fires once.
//! - [`hub`]: the bounded channel from publishers to consumers.
//! - [`server`]: the relay's side of a connection.
//! - [`client`]: a client's side, and [`supervisor`]: its way back after a
//!   connection is gone.
//! - [`midi`], [`uri`], [`secure`]: what a client and the relay need around
//!   that.

pub mod client;
pub mod hub;
pub mod midi;
pub mod outcome;
pub mod pitchlist;
pub mod protocol;
pub mod secure;
pub mod server;
pub mod supervisor;
pub mod text;
pub mod uri;
pub mod watchdog;
pub mod wire;
