//! The parts of the user's configuration that a session reads.

use vstd::prelude::*;

verus! {

/// Where audio comes from.
#[derive(Debug, Clone)]
pub struct AudioConfig {
    /// The name of the microphone; empty for the system's default.
    pub mic_device: String,
}

/// Where audio goes to.
#[derive(Debug, Clone)]
pub struct ServerConfig {
    pub base_url: String,
    pub api_key: String,
}

/// What the recogniser is told beforehand.
#[derive(Debug, Clone)]
pub struct SttConfig {
    /// Words and names to expect.
    pub context_info: String,
}

} // verus!
