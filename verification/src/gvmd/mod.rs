//! The decisions of the gvmd adapter: what each request validates, which
//! gvmd command it becomes, and how gvmd's answers turn into results. The
//! commands themselves are sent by the hosting application.

pub mod credentials;
pub mod lookup;
pub mod tasks;
pub mod targets;
pub mod supporting;
pub mod reports;
pub mod nvts;
pub mod scan_configs;
pub mod identity;
pub mod system;
pub mod alerts;
pub mod listings;
pub mod list_order;
