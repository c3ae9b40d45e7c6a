use vstd::prelude::*;

verus! {

/// The service's settings, read from its secret store.
#[derive(Debug, Clone)]
pub struct AppConfig {
    pub account_key: String,
    pub project_id: String,
    pub front_end_point: String,
}

/// Seconds that a client's allowance for one more request takes to refill.
pub const RATE_LIMIT_SECONDS_PER_REQUEST: u64 = 5;

/// Requests that a client may make at once before it is limited.
pub const RATE_LIMIT_BURST_SIZE: u32 = 10;

/// Seconds after which a request that has not been answered times out.
pub const REQUEST_TIMEOUT_SECS: u64 = 10;

/// Seconds for which browsers may cache the answer to a preflight request.
pub const CORS_MAX_AGE_SECS: usize = 3600;

/// Answers requests that take longer than a given time with a timeout error.
#[derive(Debug)]
pub struct TimeoutHandler {
    pub duration: std::time::Duration,
}

impl TimeoutHandler {
    /// A handler with the given time limit.
    pub fn new(duration: std::time::Duration) -> (r: Self)
        ensures
            r.duration == duration,
    {
        Self { duration }
    }
}

} // verus!
