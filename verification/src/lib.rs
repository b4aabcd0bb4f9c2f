//! Decision logic of a small utility that toggles whether the track now
//! playing in a streaming session is among the listener's saved tracks.
//!
//! The library performs no input or output. Every component is a machine
//! that is handed what happened and answers with what to do next, so that a
//! thin driver can carry out the remote calls, the file access and the
//! waiting.

pub mod auth;
pub mod config;
pub mod fault;
pub mod numeral;
pub mod playback;
pub mod remote;
pub mod session;
pub mod token;
pub mod toggle;
pub mod watch;

pub use auth::login;
pub use config::{get_scopes, read_configs};
pub use session::get_client;
pub use toggle::do_toggle;
pub use watch::poll;
