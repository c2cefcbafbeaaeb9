//! Asking the backend whether it is ready.

use crate::config::ServerConfig;
use crate::error::StreamError;
use crate::url::{health_address, health_url, websocket_address};
use vstd::prelude::*;

verus! {

/// How long the backend may take to answer a health check, in seconds.
pub const HEALTH_TIMEOUT_SECS: u64 = 5;

/// A health check that is ready to be sent.
#[derive(Debug)]
pub struct HealthProbe {
    pub url: String,
    /// The key to authorize with, exactly as configured.
    pub bearer: Option<String>,
}

/// Prepares the health check of a server. A key is sent unless it is empty.
pub fn health_probe(server_cfg: &ServerConfig) -> (res: Result<HealthProbe, StreamError>)
    ensures
        res is Ok <==> websocket_address(server_cfg.base_url@) is Some,
        res matches Ok(probe) ==> {
            &&& Some(probe.url@) == health_address(server_cfg.base_url@)
            &&& match probe.bearer {
                Some(key) => key@ == server_cfg.api_key@ && key@.len() > 0,
                None => server_cfg.api_key@.len() == 0,
            }
        },
        res matches Err(e) ==> {
            &&& e matches StreamError::UnsupportedUrl(url)
            &&& url@ == server_cfg.base_url@
        },
{
    match health_url(server_cfg.base_url.as_str()) {
        Err(e) => Err(e),
        Ok(url) => {
            let bearer: Option<String> = if server_cfg.api_key.as_str().is_empty() {
                None
            } else {
                Some(server_cfg.api_key.clone())
            };
            Ok(HealthProbe { url, bearer })
        },
    }
}

/// Judges the status line of the answer.
pub fn check_response(success: bool, status: String) -> (res: Result<(), StreamError>)
    ensures
        success ==> res is Ok,
        !success ==> res == Err::<(), StreamError>(StreamError::HealthRefused(status)),
{
    if success {
        Ok(())
    } else {
        Err(StreamError::HealthRefused(status))
    }
}

/// Judges the status that the backend reports about itself.
pub fn check_status(status: String) -> (res: Result<(), StreamError>)
    ensures
        status@ == "ok"@ ==> res is Ok,
        status@ != "ok"@ ==> res == Err::<(), StreamError>(StreamError::Unhealthy(status)),
{
    if status == String::from_str("ok") {
        Ok(())
    } else {
        Err(StreamError::Unhealthy(status))
    }
}

/// A health check takes at most five seconds.
pub proof fn law_health_check_is_short()
    ensures
        HEALTH_TIMEOUT_SECS == 5,
{
}

} // verus!
