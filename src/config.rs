//! Run configuration and the error kinds a cycle can end with.
use vstd::prelude::*;

verus! {

/// Parameters of one run; built once at startup and never changed.
#[derive(Clone, Debug)]
pub struct Config {
    /// Base URL of the photo API's listing endpoint.
    pub url: String,
    /// Number of items asked for per page.
    pub per_page: u32,
    /// Access key sent in the authorization header.
    pub access_key: String,
    /// Base URL of the coordination service.
    pub hosts: String,
    /// Number of cycles to run.
    pub scrape_count: u32,
    /// Base pacing interval in milliseconds.
    pub interval_ms: u64,
    /// Proxy endpoints, used in turn; empty for direct connections.
    pub proxies: Vec<String>,
    /// Accept invalid TLS certificates on the photo API fetch. Off unless
    /// asked for explicitly.
    pub insecure_tls: bool,
    /// Count a non-2xx status from the submit or increment call as a failed
    /// cycle. When off, those responses are not examined.
    pub strict_writeback: bool,
}

/// Why a cycle failed.
#[derive(Clone, Copy, Debug, PartialEq, Eq, Structural)]
pub enum ScrapeError {
    /// Connection failure, timeout or an unreadable response.
    Transport,
    /// A response with a status outside 2xx.
    HttpStatus(u16),
    /// The cursor response was not the expected JSON object.
    Protocol,
    /// A proxy URL or HTTP client could not be set up.
    Configuration,
}

/// How a cycle ended.
#[derive(Clone, Copy, Debug, PartialEq, Eq, Structural)]
pub enum CycleOutcome {
    Success,
    Failure(ScrapeError),
}

/// Whether an HTTP status code is in the 2xx range.
pub open spec fn spec_is_success(status: u16) -> bool {
    200 <= status && status < 300
}

/// Tests whether an HTTP status code is in the 2xx range.
pub fn is_success(status: u16) -> (r: bool)
    ensures
        r == spec_is_success(status),
{
    200 <= status && status < 300
}

} // verus!
