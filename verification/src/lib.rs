//! Node bootstrap for a peer-to-peer cluster: value types for node identity
//! and reachability, the discovery event consumer, and the task supervisor
//! with its two-phase shutdown.

pub mod error;
pub mod init;
pub mod log;
pub mod mdns;
pub mod net;
pub mod node;
pub mod shutdown;
