//! Verified core of a scale-to-zero TCP gateway for a container
//! orchestration platform.
//!
//! The crate holds the decision logic of the gateway: resolving the
//! backing service's port, classifying and counting serving endpoints,
//! computing the label patches that insert or remove the gateway from
//! the platform's service routing, and the scaler state machine that
//! mediates concurrent `EnsureUp` requests against the orchestrator's
//! scale subresource. All I/O (the orchestrator API, sockets, timers,
//! channels) lives outside the library and feeds it plain values.

pub mod cli;
pub mod endpoint_watcher;
pub mod injector;
pub mod labels;
pub mod scaler;
pub mod scaler_laws;
pub mod svc_info;
