//! Service discovery on the local network.

pub mod browser;
pub mod record;
