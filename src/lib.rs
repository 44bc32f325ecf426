//! A persistent websocket client for a four-in-a-row server: the decisions of
//! its session (what to send, print and notify on each event) and the board of
//! the console game, verified.
pub mod protocol;
pub mod session;
pub mod text;
pub mod laws;
pub mod field;
pub mod stamp;
