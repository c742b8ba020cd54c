//! The command-line configuration of the rate-limiting service.

use vstd::prelude::*;

verus! {

/// What the service is started with.
pub struct Cli {
    /// Name of the service to rate-limit; carried for reference only.
    pub service: String,
    /// Maximum number of requests to allow within the period.
    pub requests: u32,
    /// Period to enforce the rate over, in seconds.
    pub period: u32,
    /// IPv4 interface to bind to, normally 0.0.0.0.
    pub ip: String,
    /// Port to bind to.
    pub port: u32,
}

} // verus!
