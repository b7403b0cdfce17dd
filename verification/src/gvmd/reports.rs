//! Reports: the filters that scope result and detail requests to one
//! report.

use vstd::prelude::*;

use crate::errors::{fails_with, ErrorCode, GatewayError};
use crate::filters::{composed_filter_text, paginated_filter};
use crate::ids::{invalid_id_detail, is_entity_id, parse_entity_id};
use crate::text::joined;

verus! {

/// The filter clause that selects the results of report `id`.
pub open spec fn report_scope(id: Seq<char>) -> Seq<char> {
    "report_id="@ + id
}

/// The keyword that callers may not set in a report-scoped filter, since
/// the gateway sets it itself.
pub fn report_scope_keyword() -> (keyword: &'static str)
    ensures
        keyword@ == "report_id"@,
{
    "report_id"
}

/// Checks a report identifier and gives the filter clause that scopes a
/// request to that report's results.
pub fn report_scope_clause(report_id: &str) -> (result: Result<String, GatewayError>)
    ensures
        is_entity_id(report_id@) ==> (result matches Ok(c) && c@ == report_scope(report_id@)),
        !is_entity_id(report_id@) ==> fails_with(result, ErrorCode::InvalidInput, invalid_id_detail(report_id@)),
{
    let _ = parse_entity_id(report_id)?;
    Ok(joined("report_id=", report_id))
}

/// The filter for the window of results embedded in a fetched report:
/// page `page` of `per_page` results of report `report_id`.
pub fn embedded_results_filter(report_id: &str, page: u32, per_page: u32) -> (result: Result<String, GatewayError>)
    ensures
        is_entity_id(report_id@) ==> (result matches Ok(f) && composed_filter_text(
            Some(report_scope(report_id@)),
            None,
            None,
            Some((page, per_page)),
        ) == Some(f@)),
        !is_entity_id(report_id@) ==> fails_with(result, ErrorCode::InvalidInput, invalid_id_detail(report_id@)),
{
    let clause = report_scope_clause(report_id)?;
    match paginated_filter(Some(clause.as_str()), None, page, per_page) {
        Ok(Some(f)) => Ok(f),
        _ => Err(GatewayError::Internal(String::new())),
    }
}

} // verus!
