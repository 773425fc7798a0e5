//! Core of a WebSocket gateway that authenticates clients with short-lived
//! signed tokens and relays frames between a downstream client and one
//! upstream agent service.
//!
//! The crate holds the decision logic of the gateway: token issuance and
//! validation, selection of the token-carrying subprotocol, close-code
//! sanitizing, and the per-frame relay policy of a session. The surrounding
//! process (HTTP routing, the sockets themselves) drives these functions.

pub mod auth;
pub mod close;
pub mod relay;
pub mod upstream;
