//! Rate-limit settings: requests per second and burst capacity of the token bucket.
use vstd::prelude::*;

verus! {

/// Configuration for rate limiting.
#[derive(Debug, Clone, Copy, PartialEq, Eq, Structural)]
pub struct RateLimitConfig {
    /// Maximum requests per second.
    pub requests_per_second: u32,
    /// Burst capacity (allows temporary spikes).
    pub burst_size: u32,
}

impl Default for RateLimitConfig {
    fn default() -> (r: Self)
        ensures
            r.requests_per_second == 100,
            r.burst_size == 250,
    {
        RateLimitConfig { requests_per_second: 100, burst_size: 250 }
    }
}

impl RateLimitConfig {
    /// A stricter limit for the authentication endpoints.
    pub fn auth() -> (r: Self)
        ensures
            r.requests_per_second == 10,
            r.burst_size == 20,
    {
        RateLimitConfig { requests_per_second: 10, burst_size: 20 }
    }

    /// A more relaxed limit for the general API endpoints.
    pub fn api() -> (r: Self)
        ensures
            r.requests_per_second == 100,
            r.burst_size == 250,
    {
        RateLimitConfig { requests_per_second: 100, burst_size: 250 }
    }
}

} // verus!
