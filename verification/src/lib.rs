//! A simulated two-phase commit engine: a coordinator, a group of
//! participants and a population of clients that exchange protocol messages
//! over in-process channels, with injected message loss and injected
//! operation failure, and an operation log per actor.
//!
//! Every actor runs in turns. A turn that logs an event leaves the message
//! on that event to the next turn, so that whoever drives the actor can
//! write the log to its file in between: no message on an event goes out
//! before the event is on record.

pub mod client;
pub mod codec;
pub mod coordinator;
pub mod directory;
pub mod laws;
pub mod message;
pub mod oplog;
pub mod participant;
pub mod probability;
pub mod simulation;
pub mod text;
pub mod transport;
