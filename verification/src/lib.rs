//! Core of a "now playing" relay: a poller that deduplicates upstream
//! snapshots, a versioned single-slot broadcast bus, per-connection
//! heartbeat sessions and the credential lifecycle behind the poller.

pub mod bus;
pub mod config;
pub mod credential;
pub mod error;
pub mod json;
pub mod opts;
pub mod poller;
pub mod request;
pub mod session;
pub mod song;
pub mod utils;
