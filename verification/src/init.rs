//! Start-up, stage by stage: arguments, address, identity, configuration,
//! shared context. Each stage is a value that only the stage before it
//! makes.

pub mod args;
pub mod config;
pub mod container;
pub mod identity;
pub mod properties;
pub mod socket;
