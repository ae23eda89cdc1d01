//! A Pomodoro session library: a verified countdown-timer state machine,
//! the wire protocol that synchronizes it across peers, and the decision
//! logic of the session event loop.
//!
//! Network and terminal I/O live outside this crate; everything here is
//! pure logic with proved contracts.

pub mod args;
pub mod connection;
pub mod duration;
pub mod engine;
pub mod framing;
pub mod input;
pub mod pomodoro;
pub mod protocol;
