//! Coordination core for a workbench signage device.
//!
//! The device listens on a publish/subscribe bus, discovers which workbench
//! it currently represents, follows two information channels derived from
//! that bench, and decides when the e-paper screen must be redrawn.

pub mod commands;
pub mod config;
pub mod coordinator;
pub mod device;
pub mod events;
pub mod laws;
pub mod layout;
pub mod policy;
pub mod runs;
pub mod topics;
