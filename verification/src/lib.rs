//! Core logic of a small websocket chat: the messages that travel between
//! browser and server ([`message`]), the server's registry of connected
//! sessions and its broadcast rule ([`server`]), the handling of a session's
//! websocket frames ([`session`]), and the browser client's decisions on what
//! to show and when to reconnect ([`client`]).
pub mod client;
pub mod message;
pub mod server;
pub mod session;
