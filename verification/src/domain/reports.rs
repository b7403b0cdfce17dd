//! Report query options.

use vstd::prelude::*;

verus! {

/// Report list query options.
#[derive(Clone, Debug, Default, PartialEq, Eq)]
pub struct ReportQuery {
    /// Optional GMP filter string.
    pub filter_string: Option<String>,
    /// Optional saved filter identifier.
    pub filter_id: Option<String>,
    /// Requested page number.
    pub page: u32,
    /// Requested page size.
    pub per_page: u32,
}

/// Result list query options.
#[derive(Clone, Debug, Default, PartialEq, Eq)]
pub struct ResultQuery {
    /// Optional GMP filter string.
    pub filter_string: Option<String>,
    /// Optional saved filter identifier.
    pub filter_id: Option<String>,
    /// Requested page number.
    pub page: u32,
    /// Requested page size.
    pub per_page: u32,
}

/// Options for fetching one report with an embedded window of its results.
#[derive(Clone, Debug, PartialEq, Eq)]
pub struct GetReportOpts {
    /// Page of embedded results.
    pub page: u32,
    /// Number of embedded results.
    pub per_page: u32,
}

/// Page of embedded results fetched with a single report by default.
pub const DEFAULT_REPORT_RESULT_PAGE: u32 = 1;

/// Number of embedded results fetched with a single report by default.
pub const DEFAULT_REPORT_RESULTS_PER_PAGE: u32 = 25;

impl Default for GetReportOpts {
    /// The first page of 25 embedded results.
    fn default() -> (opts: Self)
        ensures
            opts.page == 1,
            opts.per_page == 25,
    {
        GetReportOpts { page: DEFAULT_REPORT_RESULT_PAGE, per_page: DEFAULT_REPORT_RESULTS_PER_PAGE }
    }
}

} // verus!
