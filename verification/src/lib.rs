//! Supervision core for a line-oriented game-server process: the RCON packet
//! codec, the log broadcast hub, the command dispatch queue, the command
//! correlator, and the parsers for the server's log replies.

pub mod config;
pub mod correlator;
pub mod dispatch;
pub mod hub;
pub mod players;
pub mod properties;
pub mod rcon;
pub mod session;
