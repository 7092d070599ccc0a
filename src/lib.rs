//! Core of a client for a timed word-guessing game server: the instant type and
//! its clock, the decoder of server frames, the round reducer, the consumer's
//! session log, and the queues and worker decisions of the socket bridge.
pub mod clock;
pub mod protocol;
pub mod queues;
pub mod round;
pub mod session;
pub mod worker;

pub use clock::Timestamp;
