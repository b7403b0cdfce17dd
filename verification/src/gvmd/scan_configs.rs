//! Scan configurations and policies: the usage discriminator that keeps
//! the two resource families apart, and the checks on their requests.

use vstd::prelude::*;

use crate::errors::{fails_with, ErrorCode, GatewayError};
use crate::gvmd::lookup::{not_found, not_found_detail};
use crate::ids::{invalid_id_detail, is_entity_id, parse_entity_id, EntityId};
use crate::pagination::{page_window, paged_pagination, paged_slice, pagination_for, Page};
use crate::sorting::{sort_by_name, stably_sorted_by_name};
use crate::text::{joined, owned, text_eq};

verus! {

/// The usage types that gvmd's config commands select by themselves.
#[derive(Clone, Copy, Debug, PartialEq, Eq, Structural)]
pub enum ConfigUsage {
    Scan,
    Policy,
}

/// How a config list request selects by usage type: a typed usage, or a
/// filter clause for any other usage type, which the caller's filter may
/// then not set itself.
#[derive(Clone, Debug, PartialEq, Eq)]
pub enum UsageSelection {
    All,
    Typed(ConfigUsage),
    Clause(String),
}

/// Decides how a generic config list selects by the requested usage type.
pub fn config_usage_selection(usage_type: Option<&str>) -> (selection: UsageSelection)
    ensures
        match usage_type {
            None => selection == UsageSelection::All,
            Some(u) => if u@ == "scan"@ {
                selection == UsageSelection::Typed(ConfigUsage::Scan)
            } else if u@ == "policy"@ {
                selection == UsageSelection::Typed(ConfigUsage::Policy)
            } else {
                selection matches UsageSelection::Clause(c) && c@ == "usage_type="@ + u@
            },
        },
{
    match usage_type {
        None => UsageSelection::All,
        Some(u) => {
            if text_eq(u, "scan") {
                UsageSelection::Typed(ConfigUsage::Scan)
            } else if text_eq(u, "policy") {
                UsageSelection::Typed(ConfigUsage::Policy)
            } else {
                UsageSelection::Clause(joined("usage_type=", u))
            }
        },
    }
}

/// Whether the first of `items` has the usage type `usage`.
pub open spec fn leads_with_usage<T>(items: Seq<(Option<String>, T)>, usage: Seq<char>) -> bool {
    items.len() > 0 && (items[0].0 matches Some(u) && u@ == usage)
}

/// Picks the first config gvmd returned for a lookup of `kind` `id`, if it
/// has the usage type `usage`: a config of the other family is treated as
/// absent, so neither family is readable through the other's route.
pub fn first_with_usage<T>(items: Vec<(Option<String>, T)>, usage: &str, kind: &str, id: &str) -> (result: Result<T, GatewayError>)
    ensures
        leads_with_usage(items@, usage@) ==> result == Ok::<T, GatewayError>(items@[0].1),
        !leads_with_usage(items@, usage@) ==> fails_with(
            result,
            ErrorCode::NotFound,
            not_found_detail(kind@, id@),
        ),
{
    let mut items = items;
    if items.len() == 0 {
        return Err(not_found(kind, id));
    }
    let (u, item) = items.remove(0);
    match u {
        Some(u) => {
            if text_eq(u.as_str(), usage) {
                Ok(item)
            } else {
                Err(not_found(kind, id))
            }
        },
        None => Err(not_found(kind, id)),
    }
}

/// Checks the base of a new scan configuration or policy: its identifier,
/// then what looking it up in its own family gave. A base that is not
/// found there is refused with `not_found_message`; any other lookup
/// failure is passed on.
pub fn validated_base(id: &str, lookup: Result<(), GatewayError>, not_found_message: &str) -> (result: Result<EntityId, GatewayError>)
    ensures
        !is_entity_id(id@) ==> fails_with(result, ErrorCode::InvalidInput, invalid_id_detail(id@)),
        is_entity_id(id@) ==> match lookup {
            Ok(()) => result matches Ok(b) && b@ == id@,
            Err(e) => if e@.0 == ErrorCode::NotFound {
                fails_with(result, ErrorCode::InvalidInput, not_found_message@)
            } else {
                result == Err::<EntityId, GatewayError>(e)
            },
        },
{
    let base = parse_entity_id(id)?;
    match lookup {
        Ok(()) => Ok(base),
        Err(e) => {
            if e.code() == ErrorCode::NotFound {
                Err(GatewayError::InvalidInput(owned(not_found_message)))
            } else {
                Err(e)
            }
        },
    }
}

/// The message for a scan configuration base that is not an active scan
/// configuration.
pub fn scan_config_base_message() -> (m: &'static str)
    ensures
        m@ == "baseScanConfigId must identify an active scan config"@,
{
    "baseScanConfigId must identify an active scan config"
}

/// The message for a policy base that is not an active policy.
pub fn policy_base_message() -> (m: &'static str)
    ensures
        m@ == "basePolicyId must identify an active policy"@,
{
    "basePolicyId must identify an active policy"
}

/// Which preference of a scan configuration an update sets.
#[derive(Clone, Debug)]
pub enum PreferenceTarget {
    /// A preference of the NVT with this OID.
    Nvt(String),
    /// A preference of the scanner.
    Scanner,
}

/// Decides what a scan configuration preference update sets: an NVT's
/// preference when an NVT OID is given, the scanner's otherwise.
pub fn preference_target(id: &str, nvt_oid: Option<String>) -> (result: Result<(EntityId, PreferenceTarget), GatewayError>)
    ensures
        !is_entity_id(id@) ==> fails_with(result, ErrorCode::InvalidInput, invalid_id_detail(id@)),
        is_entity_id(id@) ==> (result matches Ok((c, t)) && c@ == id@ && match nvt_oid {
            Some(o) => t matches PreferenceTarget::Nvt(x) && x == o,
            None => t is Scanner,
        }),
{
    let config_id = parse_entity_id(id)?;
    let target = match nvt_oid {
        Some(o) => PreferenceTarget::Nvt(o),
        None => PreferenceTarget::Scanner,
    };
    Ok((config_id, target))
}

/// The families whose NVTs a scan configuration NVT listing walks: the
/// requested family alone, else every family gvmd knows.
pub fn families_to_list(requested: Option<String>, known: Vec<String>) -> (families: Vec<String>)
    ensures
        match requested {
            Some(f) => families@ == seq![f],
            None => families@ == known@,
        },
{
    match requested {
        Some(f) => {
            let mut v = Vec::new();
            v.push(f);
            v
        },
        None => known,
    }
}

/// The values of named entries, in order.
pub open spec fn entry_values<T>(entries: Seq<(String, T)>) -> Seq<T> {
    entries.map_values(|e: (String, T)| e.1)
}

/// A page of named entries listed in name order: the NVTs a scan
/// configuration selects (gathered from every family walked) or the NVT
/// families. The total is the one gvmd reported, else the number of entries
/// as a `u32`; the requested page is cut out of the ordered entries.
pub fn page_by_name<T>(nvts: Vec<(String, T)>, reported_total: Option<u32>, page: u32, per_page: u32) -> (result: Page<T>)
    requires
        per_page > 0 || match reported_total {
            Some(t) => t == 0,
            None => nvts@.len() as u32 == 0,
        },
    ensures
        exists|sorted: Seq<(String, T)>, p: Seq<int>|
            stably_sorted_by_name(sorted, nvts@, p) && result.data@ == page_window(entry_values(sorted), page as int, per_page as int),
        result.pagination == pagination_for(
            match reported_total {
                Some(t) => t,
                None => nvts@.len() as u32,
            },
            page,
            per_page,
        ),
{
    let total = match reported_total {
        Some(t) => t,
        None => nvts.len() as u32,
    };
    let sorted = sort_by_name(nvts);
    let ghost sorted_view = sorted@;
    let n = sorted.len();
    let mut values: Vec<T> = Vec::new();
    let mut rest = sorted;
    let mut j: usize = 0;
    while j < n
        invariant
            n == sorted_view.len(),
            j <= n,
            rest@ == sorted_view.subrange(j as int, n as int),
            values@.len() == j,
            forall|i: int| 0 <= i < j ==> #[trigger] values@[i] == sorted_view[i].1,
        decreases n - j,
    {
        proof {
            assert(rest@[0] == sorted_view[j as int]);
        }
        let (_, value) = rest.remove(0);
        proof {
            assert(rest@ =~= sorted_view.subrange(j + 1, n as int));
        }
        values.push(value);
        j = j + 1;
    }
    proof {
        assert(values@ =~= entry_values(sorted_view));
    }
    Page { data: paged_slice(values, page, per_page), pagination: paged_pagination(total, page, per_page) }
}

} // verus!
