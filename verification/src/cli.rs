//! The gateway's configuration, as resolved from flags or the
//! environment by the surrounding program.

use vstd::prelude::*;

verus! {

/// The configuration record the gateway runs with.
#[derive(Debug)]
pub struct Cli {
    /// Listen on this address.
    pub listen_host: String,
    /// Listen on this port.
    pub listen_port: u16,
    /// Deployment to scale.
    pub deployment: String,
    /// Service to proxy to.
    pub service: String,
    /// Port name of the service; the first declared port when absent.
    pub service_port: Option<String>,
    /// Whether the gateway injects itself into the service's
    /// endpoints while the workload is at zero.
    pub inject: bool,
}

} // verus!
