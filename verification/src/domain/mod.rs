//! Domain data shared by every gateway surface.

pub mod alerts;
pub mod common;
pub mod identity;
pub mod ports;
pub mod credentials;
pub mod feeds;
pub mod reports;
pub mod scan_configs;
pub mod supporting_resources;
pub mod targets;
pub mod tasks;
