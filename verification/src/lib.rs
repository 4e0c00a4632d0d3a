//! The verified core of a text chat relay.
//!
//! - `frame`: the length-prefixed frame codec that server and client share.
//! - `message`: the chat message and its styles.
//! - `wire`: the JSON objects that travel in frames, and how each is read.
//! - `registry`: which user name is held from which address.
//! - `connection`: the decisions the server takes for one connection.
//! - `client`: the decisions the terminal client takes.
//!
//! Three modules say what is believed, without proof, of code outside this
//! crate: `json` of `serde_json`, `text` of the standard library, and `clock`
//! of `chrono` (the time now, and the time of day of an instant). Sockets,
//! the broadcast channel and the terminal are left to the program around
//! this library.

pub mod client;
pub mod clock;
pub mod connection;
pub mod frame;
pub mod json;
pub mod message;
pub mod registry;
pub mod text;
pub mod wire;
