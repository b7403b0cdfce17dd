//! Verified core of the GVM gateway: domain types, pagination, input
//! validation and the per-request decisions that sit between the REST surface
//! and gvmd.

pub mod pagination;
pub mod filters;
pub mod sorting;
pub mod errors;
pub mod domain;
pub mod text;
pub mod ids;
pub mod backend;
pub mod redaction;
pub mod gvmd;
pub mod static_adapter;
