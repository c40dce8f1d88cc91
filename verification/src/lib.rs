//! Notices from an automation agent to a messaging-bot backend.
//!
//! The library holds the rules of the delivery: what is sent, what the
//! backend's answers mean, when a failed delivery is tried again and after
//! what delay, how the members of a group are mentioned, and how files are
//! cached until the backend has fetched them. It performs no input or output
//! of its own: whoever calls it sends the requests and reads the clock, and
//! the library says what to send and what to make of the answer.
//!
//! Every function is verified against the contract that it carries, but
//! for the calls that are gathered in [`bindings`]: their contracts are taken
//! on trust.

pub mod bindings;
pub mod config;
pub mod errors;
pub mod gewe_api;
pub mod retry;
pub mod server;
pub mod text;
pub mod upload_server;
pub mod uploader;
