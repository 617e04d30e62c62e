use vstd::prelude::*;

verus! {

/// The settings a sender is built from.
#[derive(Clone, Debug)]
pub struct Config {
    /// Absolute URL that notices are posted to; checked only when sending.
    pub endpoint: String,
    /// `host` or `host:port` of an HTTP proxy; empty for a direct connection.
    pub proxy: String,
    /// Retries after a failed first attempt; none when unset.
    pub max_retry: Option<u32>,
    /// Milliseconds to wait before each retry; one second when unset.
    pub retry_timeout_ms: Option<u64>,
}

impl Config {
    pub fn endpoint(&self) -> (r: String)
        ensures
            r@ == self.endpoint@,
    {
        self.endpoint.clone()
    }
}

} // verus!
