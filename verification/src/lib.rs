//! Client core for the Crypto Facilities WebSocket API v1.
//!
//! The crate holds the protocol logic of one feed connection: the challenge
//! signer, the inbound frame decoder, the outbound request texts, and the
//! decisions of the connection loop and of the challenge handshake. It does no
//! I/O: the program that owns the socket performs the actions that the
//! functions here return.

pub mod auth;
pub mod client;
pub mod decoder;
pub mod json;
pub mod models;
pub mod mux;
pub mod request;
pub mod signer;
pub mod text;

pub use auth::{AuthStep, Authenticator};
pub use client::WebSocket;
pub use decoder::{decode, Decoded};
pub use models::{
    Challenge, Error, Header, Heartbeat, Kind, Msg, Notification, Notifications, Payload,
    Subscribed, Version,
};
pub use mux::{step, Action, Dropped, Event, Frame, Outbound, State};
pub use signer::{sign, sign_with_key, SignError};
