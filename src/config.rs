use vstd::prelude::*;

verus! {

/// Largest body, in bytes, that a fetch accepts by default.
pub const DEFAULT_MAX_BODY_LENGTH: usize = 40971520;

/// Default code recorded when the request could not be completed.
pub const DEFAULT_CONNECTION_FAILURE_CODE: u16 = 666;

/// Default code recorded when the response body could not be read.
pub const DEFAULT_DOWNLOAD_FAILURE_CODE: u16 = 667;

/// Default code recorded when the body was larger than accepted.
pub const DEFAULT_SIZE_EXCEEDED_CODE: u16 = 668;

/// Default number of fetches that may be in flight at once.
pub const DEFAULT_MAX_IN_FLIGHT: usize = 100;

/// Settings of one polling run.
pub struct PollConfig {
    /// Sent as `User-Agent` on every request.
    pub user_agent: String,
    /// Largest accepted body length in bytes.
    pub max_body_length: usize,
    /// Synthetic status for a transport failure.
    pub connection_failure_code: u16,
    /// Synthetic status for a body that could not be read.
    pub download_failure_code: u16,
    /// Synthetic status for a body over `max_body_length`.
    pub size_exceeded_code: u16,
    /// Ceiling on simultaneous fetches.
    pub max_in_flight: usize,
}

/// A synthetic code lies outside the range of real HTTP statuses.
pub open spec fn is_synthetic_code(c: u16) -> bool {
    c > 599
}

impl PollConfig {
    /// The synthetic codes are distinct and clear of real statuses, and at
    /// least one fetch may run.
    pub open spec fn wf(&self) -> bool {
        &&& is_synthetic_code(self.connection_failure_code)
        &&& is_synthetic_code(self.download_failure_code)
        &&& is_synthetic_code(self.size_exceeded_code)
        &&& self.connection_failure_code != self.download_failure_code
        &&& self.connection_failure_code != self.size_exceeded_code
        &&& self.download_failure_code != self.size_exceeded_code
        &&& self.max_in_flight > 0
    }

    /// The standard settings with the given user agent.
    pub fn new(user_agent: String) -> (r: PollConfig)
        ensures
            r.wf(),
            r.user_agent@ == user_agent@,
            r.max_body_length == DEFAULT_MAX_BODY_LENGTH,
            r.connection_failure_code == DEFAULT_CONNECTION_FAILURE_CODE,
            r.download_failure_code == DEFAULT_DOWNLOAD_FAILURE_CODE,
            r.size_exceeded_code == DEFAULT_SIZE_EXCEEDED_CODE,
            r.max_in_flight == DEFAULT_MAX_IN_FLIGHT,
    {
        PollConfig {
            user_agent,
            max_body_length: DEFAULT_MAX_BODY_LENGTH,
            connection_failure_code: DEFAULT_CONNECTION_FAILURE_CODE,
            download_failure_code: DEFAULT_DOWNLOAD_FAILURE_CODE,
            size_exceeded_code: DEFAULT_SIZE_EXCEEDED_CODE,
            max_in_flight: DEFAULT_MAX_IN_FLIGHT,
        }
    }
}

} // verus!
