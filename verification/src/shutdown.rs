//! Supervision of background tasks and their orderly shutdown.

pub mod container;
pub mod drain;
pub mod manager;
