//! NVTs: the options of an NVT list request and the checks on its answer.

use vstd::prelude::*;

use crate::domain::supporting_resources::NvtQuery;
use crate::errors::{fails_with, ErrorCode, GatewayError};
use crate::ids::{is_entity_id, optional_id_match, optional_id_valid, parse_entity_id, EntityId};
use crate::text::{joined, owned, text_eq};

verus! {

/// The options of a gvmd NVT list request.
#[derive(Clone, Debug)]
pub struct NvtListOptions {
    pub filter_string: Option<String>,
    pub details: bool,
    pub preferences: Option<bool>,
    pub preference_count: Option<bool>,
    pub timeout: Option<bool>,
    pub config_id: Option<EntityId>,
    pub preferences_config_id: Option<EntityId>,
    pub family: Option<String>,
    pub sort_order: Option<String>,
    pub sort_field: Option<String>,
}

/// Whether an optional sort order is absent or one gvmd accepts.
pub open spec fn sort_order_valid(order: Option<String>) -> bool {
    match order {
        None => true,
        Some(o) => o@ == "ascending"@ || o@ == "descending"@,
    }
}

/// Detail of the error for an unknown sort order.
pub open spec fn sort_order_detail() -> Seq<char> {
    "sortOrder must be ascending or descending"@
}

fn named_optional_id(field: &str, value: &Option<String>) -> (result: Result<Option<EntityId>, GatewayError>)
    ensures
        result is Ok <==> optional_id_valid(*value),
        result matches Ok(p) ==> optional_id_match(p, *value),
        !optional_id_valid(*value) ==> fails_with(result, ErrorCode::InvalidInput, "invalid "@ + field@),
{
    match value {
        None => Ok(None),
        Some(v) => {
            if crate::ids::is_valid_entity_id(v.as_str()) {
                Ok(Some(parse_entity_id(v.as_str()).unwrap()))
            } else {
                Err(GatewayError::InvalidInput(joined("invalid ", field)))
            }
        },
    }
}

/// Builds the options of an NVT list request with the composed
/// `filter_string`. The sort order must be `ascending` or `descending`;
/// a malformed `configId` or `preferencesConfigId` is refused under its
/// field name.
pub fn nvt_opts(query: &NvtQuery, filter_string: Option<String>) -> (result: Result<NvtListOptions, GatewayError>)
    ensures
        result is Ok <==> (sort_order_valid(query.sort_order) && optional_id_valid(query.config_id)
            && optional_id_valid(query.preferences_config_id)),
        !sort_order_valid(query.sort_order) ==> fails_with(result, ErrorCode::InvalidInput, sort_order_detail()),
        sort_order_valid(query.sort_order) && !optional_id_valid(query.config_id) ==> fails_with(
            result,
            ErrorCode::InvalidInput,
            "invalid "@ + "configId"@,
        ),
        sort_order_valid(query.sort_order) && optional_id_valid(query.config_id) && !optional_id_valid(
            query.preferences_config_id,
        ) ==> fails_with(result, ErrorCode::InvalidInput, "invalid "@ + "preferencesConfigId"@),
        result matches Ok(o) ==> {
            &&& o.filter_string == filter_string
            &&& o.details
            &&& o.preferences == query.include_preferences
            &&& o.preference_count == query.include_preference_count
            &&& o.timeout == query.include_timeout
            &&& optional_id_match(o.config_id, query.config_id)
            &&& optional_id_match(o.preferences_config_id, query.preferences_config_id)
            &&& o.family == query.family
            &&& o.sort_order == query.sort_order
            &&& o.sort_field == query.sort_field
        },
{
    if let Some(order) = &query.sort_order {
        if !text_eq(order.as_str(), "ascending") && !text_eq(order.as_str(), "descending") {
            return Err(GatewayError::InvalidInput(owned("sortOrder must be ascending or descending")));
        }
    }
    let config_id = named_optional_id("configId", &query.config_id)?;
    let preferences_config_id = named_optional_id("preferencesConfigId", &query.preferences_config_id)?;
    Ok(
        NvtListOptions {
            filter_string,
            details: true,
            preferences: query.include_preferences,
            preference_count: query.include_preference_count,
            timeout: query.include_timeout,
            config_id,
            preferences_config_id,
            family: query.family.clone(),
            sort_order: query.sort_order.clone(),
            sort_field: query.sort_field.clone(),
        },
    )
}

/// Whether the backend answered a paginated NVT query with more entries
/// than a page holds, that is, ignored the page window.
pub fn backend_ignored_pagination(returned: usize, per_page: u32) -> (ignored: bool)
    ensures
        ignored == (returned > per_page),
{
    returned > per_page as usize
}

/// Detail of the error for an NVT that a scan configuration does not
/// select.
pub open spec fn nvt_not_selected_detail(oid: Seq<char>, config_id: Seq<char>) -> Seq<char> {
    "NVT "@ + oid + " not selected by scan config "@ + config_id
}

/// Picks the NVT `oid` out of what gvmd returned for a scan configuration
/// (each entry with its OID), or reports that the configuration does not
/// select it.
pub fn selected_nvt<T>(entries: Vec<(String, T)>, oid: &str, config_id: &str) -> (result: Result<T, GatewayError>)
    ensures
        match result {
            Ok(t) => exists|i: int|
                0 <= i < entries@.len() && (#[trigger] entries@[i]).0@ == oid@ && entries@[i].1 == t
                    && forall|j: int| 0 <= j < i ==> (#[trigger] entries@[j]).0@ != oid@,
            Err(e) => (forall|i: int| 0 <= i < entries@.len() ==> (#[trigger] entries@[i]).0@ != oid@)
                && e@ == (ErrorCode::NotFound, nvt_not_selected_detail(oid@, config_id@)),
        },
{
    let ghost orig = entries@;
    let mut rest = entries;
    let mut k: usize = 0;
    let n = rest.len();
    while k < n
        invariant
            n == orig.len(),
            orig == entries@,
            k <= n,
            rest@ == orig.subrange(k as int, n as int),
            forall|j: int| 0 <= j < k ==> (#[trigger] orig[j]).0@ != oid@,
        decreases n - k,
    {
        proof {
            assert(rest@[0] == orig[k as int]);
        }
        let entry = rest.remove(0);
        proof {
            assert(rest@ =~= orig.subrange(k + 1, n as int));
            assert(entry == orig[k as int]);
        }
        let (entry_oid, value) = entry;
        if text_eq(entry_oid.as_str(), oid) {
            proof {
                assert(orig[k as int].0@ == oid@ && orig[k as int].1 == value);
                assert(orig == entries@);
                assert(exists|i: int|
                    0 <= i < entries@.len() && (#[trigger] entries@[i]).0@ == oid@ && entries@[i].1 == value
                        && forall|j: int| 0 <= j < i ==> (#[trigger] entries@[j]).0@ != oid@);
            }
            return Ok(value);
        }
        k = k + 1;
    }
    let mut d = owned("NVT ");
    d.append(oid);
    d.append(" not selected by scan config ");
    d.append(config_id);
    Err(GatewayError::NotFound(d))
}

} // verus!
