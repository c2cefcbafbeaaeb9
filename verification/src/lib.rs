//! Verified core of a push-to-talk dictation client.
//!
//! Captured audio is accepted and brought to one rate (`audio`, `resample`), encoded (`wire`)
//! and sent in the course of a live session (`session`) or a file transfer (`transfer`), both
//! of which end in a wait for the final result (`wait`). What the backend says is collected in
//! a `transcript`. A status card keeps the user informed (`overlay`, `card`, `window`).
//!
//! The core does no input or output: `protocol` holds the requests that it makes of its driver
//! and the replies that it gets.

pub mod audio;
pub mod capture;
pub mod card;
pub mod chunking;
pub mod config;
pub mod error;
pub mod handshake;
pub mod health;
pub mod overlay;
pub mod protocol;
pub mod resample;
pub mod session;
pub mod session_laws;
pub mod text;
pub mod transcript;
pub mod transfer;
pub mod transfer_laws;
pub mod url;
pub mod wait;
pub mod window;
pub mod wire;
