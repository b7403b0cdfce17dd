//! Single-resource lookups: gvmd answers a `get_*` command with a list, and
//! an empty list means the resource does not exist.

use vstd::prelude::*;

use crate::errors::{fails_with, ErrorCode, GatewayError};

verus! {

/// Detail of the error for a resource that gvmd did not return.
pub open spec fn not_found_detail(kind: Seq<char>, id: Seq<char>) -> Seq<char> {
    kind + " "@ + id + " not found"@
}

/// The error for a `kind` resource `id` that gvmd did not return.
pub fn not_found(kind: &str, id: &str) -> (e: GatewayError)
    ensures
        e@ == (ErrorCode::NotFound, not_found_detail(kind@, id@)),
{
    let mut d = String::from_str(kind);
    d.append(" ");
    d.append(id);
    d.append(" not found");
    GatewayError::NotFound(d)
}

/// The first item gvmd returned for a lookup of `kind` resource `id`, or
/// `NotFound` when it returned none.
pub fn first_or_not_found<T>(items: Vec<T>, kind: &str, id: &str) -> (result: Result<T, GatewayError>)
    ensures
        items@.len() > 0 ==> result == Ok::<T, GatewayError>(items@[0]),
        items@.len() == 0 ==> fails_with(result, ErrorCode::NotFound, not_found_detail(kind@, id@)),
{
    let mut items = items;
    if items.len() == 0 {
        return Err(not_found(kind, id));
    }
    Ok(items.remove(0))
}

} // verus!
