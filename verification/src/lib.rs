//! Call control for a SIP trunk: the call store, the webhook and management
//! decisions, Telnyx signature checking, request construction for the Telnyx
//! and management APIs, and command-line parsing.
pub mod text;
pub mod models;
pub mod error;
pub mod store;
pub mod server;
pub mod laws;
pub mod signature;
pub mod gateway;
pub mod telnyx;
pub mod logging;
pub mod cli;
