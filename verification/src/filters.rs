//! Composition of the GMP filter strings sent with list requests: a saved
//! filter's term, a fixed clause of the endpoint, the caller's filter and
//! the page window, joined by single spaces.

use vstd::prelude::*;

use crate::errors::{fails_with, ErrorCode, GatewayError};
use crate::pagination::window_start;
use crate::text::{ascii_lowercase, contains_text, decimal, decimal_text, is_blank, is_blank_text, lowercase_contains, owned};

verus! {

/// The text of an optional string slice.
pub open spec fn opt_text(value: Option<&str>) -> Option<Seq<char>> {
    match value {
        None => None,
        Some(v) => Some(v@),
    }
}

/// Appends one clause to a filter under construction; absent and blank
/// clauses add nothing.
pub open spec fn add_clause(acc: Option<Seq<char>>, clause: Option<Seq<char>>) -> Option<Seq<char>> {
    match clause {
        None => acc,
        Some(c) => if is_blank_text(c) {
            acc
        } else {
            match acc {
                None => Some(c),
                Some(a) => Some(a + " "@ + c),
            }
        },
    }
}

/// Index (1-based) of the first item of page `page`; page 0 is page 1.
pub open spec fn first_item(page: u32, per_page: u32) -> nat {
    (window_start(page as int, per_page as int) + 1) as nat
}

/// The GMP clause that selects page `page` of `per_page` items.
pub open spec fn pagination_clause(page: u32, per_page: u32) -> Seq<char> {
    "first="@ + decimal(first_item(page, per_page)) + " rows="@ + decimal(per_page as nat)
}

/// The filter made of the saved filter's term, the endpoint's clause, the
/// caller's filter and, when given, the page window, in this order.
pub open spec fn composed_filter_text(
    prefix: Option<Seq<char>>,
    saved: Option<Seq<char>>,
    filter: Option<Seq<char>>,
    window: Option<(u32, u32)>,
) -> Option<Seq<char>> {
    let with_terms = add_clause(add_clause(add_clause(None, saved), prefix), filter);
    match window {
        None => with_terms,
        Some((page, per_page)) => add_clause(with_terms, Some(pagination_clause(page, per_page))),
    }
}

/// Whether the caller's filter sets the keyword `term` itself (`term=`,
/// compared without regard to ASCII case).
pub open spec fn uses_reserved_term(filter: Seq<char>, term: Seq<char>) -> bool {
    contains_text(ascii_lowercase(filter), term + "="@)
}

/// Detail of the error for a caller filter that sets a reserved keyword.
pub open spec fn reserved_term_detail(term: Seq<char>) -> Seq<char> {
    "filter contains reserved term '"@ + term + "'"@
}

/// Whether `filter` sets none of the reserved keywords.
pub open spec fn free_of_reserved_terms(filter: Option<Seq<char>>, terms: Seq<&str>) -> bool {
    match filter {
        None => true,
        Some(f) => forall|i: int| 0 <= i < terms.len() ==> !uses_reserved_term(f, #[trigger] terms[i]@),
    }
}

fn add_clause_exec(acc: Option<String>, clause: Option<&str>) -> (result: Option<String>)
    ensures
        match result {
            None => add_clause(
                match acc {
                    None => None,
                    Some(a) => Some(a@),
                },
                opt_text(clause),
            ).is_none(),
            Some(r) => add_clause(
                match acc {
                    None => None,
                    Some(a) => Some(a@),
                },
                opt_text(clause),
            ) == Some(r@),
        },
{
    match clause {
        None => acc,
        Some(c) => {
            if is_blank(c) {
                acc
            } else {
                match acc {
                    None => Some(owned(c)),
                    Some(a) => {
                        let mut a = a;
                        a.append(" ");
                        a.append(c);
                        Some(a)
                    },
                }
            }
        },
    }
}

/// Renders the page-window clause.
pub fn pagination_text(page: u32, per_page: u32) -> (text: String)
    ensures
        text@ == pagination_clause(page, per_page),
{
    let before: u64 = if page == 0 { 0 } else { (page - 1) as u64 };
    assert(before * (per_page as u64) <= 0xffff_fffe * 0xffff_ffff) by (nonlinear_arith)
        requires
            before <= 0xffff_fffe,
            per_page <= 0xffff_ffff,
    ;
    let skipped: u64 = before * (per_page as u64);
    assert(skipped == window_start(page as int, per_page as int)) by {
        if page <= 1 {
            assert(before == 0);
            assert(skipped == 0) by (nonlinear_arith)
                requires
                    before == 0,
                    skipped == before * per_page,
            ;
        }
    }
    let mut text = owned("first=");
    text.append(decimal_text(skipped + 1).as_str());
    text.append(" rows=");
    text.append(decimal_text(per_page as u64).as_str());
    text
}

/// The first reserved keyword that `filter` sets, if any.
fn first_reserved_term(filter: &str, reserved_terms: &[&str]) -> (found: Option<usize>)
    ensures
        match found {
            None => forall|i: int|
                0 <= i < reserved_terms@.len() ==> !uses_reserved_term(filter@, #[trigger] reserved_terms@[i]@),
            Some(k) => k < reserved_terms@.len() && uses_reserved_term(filter@, reserved_terms@[k as int]@)
                && forall|i: int| 0 <= i < k ==> !uses_reserved_term(filter@, #[trigger] reserved_terms@[i]@),
        },
{
    let mut k: usize = 0;
    while k < reserved_terms.len()
        invariant
            k <= reserved_terms@.len(),
            forall|i: int| 0 <= i < k ==> !uses_reserved_term(filter@, #[trigger] reserved_terms@[i]@),
        decreases reserved_terms@.len() - k,
    {
        let mut keyword = owned(reserved_terms[k]);
        keyword.append("=");
        if lowercase_contains(filter, keyword.as_str()) {
            return Some(k);
        }
        k = k + 1;
    }
    None
}

/// Composes the filter of a list request: the saved filter's term, the
/// endpoint's own clause, the caller's filter and the optional page window
/// `(page, per_page)`. The caller's filter may not set any of
/// `reserved_terms`, which the endpoint decides itself. `Ok(None)` means
/// no filter at all.
pub fn composed_filter(
    prefix: Option<&str>,
    saved_filter_string: Option<&str>,
    filter_string: Option<&str>,
    window: Option<(u32, u32)>,
    reserved_terms: &[&str],
) -> (result: Result<Option<String>, GatewayError>)
    ensures
        free_of_reserved_terms(opt_text(filter_string), reserved_terms@) ==> match result {
            Ok(None) => composed_filter_text(
                opt_text(prefix),
                opt_text(saved_filter_string),
                opt_text(filter_string),
                window,
            ).is_none(),
            Ok(Some(f)) => composed_filter_text(
                opt_text(prefix),
                opt_text(saved_filter_string),
                opt_text(filter_string),
                window,
            ) == Some(f@),
            Err(_) => false,
        },
        !free_of_reserved_terms(opt_text(filter_string), reserved_terms@) ==> exists|k: int|
            0 <= k < reserved_terms@.len() && uses_reserved_term(
                filter_string->0@,
                #[trigger] reserved_terms@[k]@,
            ) && (forall|i: int|
                0 <= i < k ==> !uses_reserved_term(filter_string->0@, #[trigger] reserved_terms@[i]@))
                && fails_with(result, ErrorCode::InvalidInput, reserved_term_detail(reserved_terms@[k]@)),
{
    if let Some(f) = filter_string {
        if let Some(k) = first_reserved_term(f, reserved_terms) {
            let mut detail = owned("filter contains reserved term '");
            detail.append(reserved_terms[k]);
            detail.append("'");
            return Err(GatewayError::InvalidInput(detail));
        }
    }
    let acc = add_clause_exec(None, saved_filter_string);
    let acc = add_clause_exec(acc, prefix);
    let acc = add_clause_exec(acc, filter_string);
    match window {
        None => Ok(acc),
        Some((page, per_page)) => {
            let clause = pagination_text(page, per_page);
            Ok(add_clause_exec(acc, Some(clause.as_str())))
        },
    }
}

/// The filter of a paginated list request without a saved filter: the
/// endpoint's clause, the caller's filter (which may not set any of
/// `reserved_terms`) and the page window.
pub fn paginated_filter_with_reserved_terms(
    prefix: Option<&str>,
    filter_string: Option<&str>,
    page: u32,
    per_page: u32,
    reserved_terms: &[&str],
) -> (result: Result<Option<String>, GatewayError>)
    ensures
        free_of_reserved_terms(opt_text(filter_string), reserved_terms@) ==> match result {
            Ok(Some(f)) => composed_filter_text(
                opt_text(prefix),
                None,
                opt_text(filter_string),
                Some((page, per_page)),
            ) == Some(f@),
            _ => false,
        },
        !free_of_reserved_terms(opt_text(filter_string), reserved_terms@) ==> exists|k: int|
            0 <= k < reserved_terms@.len() && uses_reserved_term(
                filter_string->0@,
                #[trigger] reserved_terms@[k]@,
            ) && (forall|i: int|
                0 <= i < k ==> !uses_reserved_term(filter_string->0@, #[trigger] reserved_terms@[i]@))
                && fails_with(result, ErrorCode::InvalidInput, reserved_term_detail(reserved_terms@[k]@)),
{
    let r = composed_filter(prefix, None, filter_string, Some((page, per_page)), reserved_terms);
    proof {
        let c = pagination_clause(page, per_page);
        assert(c.len() > 0 && c[0] == 'f') by {
            reveal_strlit("first=");
            assert(c[0] == "first="@[0]);
        }
        assert(!is_blank_text(c));
    }
    r
}

/// The filter of a paginated list request without a saved filter and
/// without reserved keywords.
pub fn paginated_filter(prefix: Option<&str>, filter_string: Option<&str>, page: u32, per_page: u32) -> (result: Result<Option<String>, GatewayError>)
    ensures
        match result {
            Ok(Some(f)) => composed_filter_text(
                opt_text(prefix),
                None,
                opt_text(filter_string),
                Some((page, per_page)),
            ) == Some(f@),
            _ => false,
        },
{
    let none: [&str; 0] = [];
    paginated_filter_with_reserved_terms(prefix, filter_string, page, per_page, none.as_slice())
}

/// The page window a filter asks gvmd for starts at the item where
/// `paged_slice` starts the same page of the complete result set, and
/// holds as many items.
pub proof fn filter_window_is_the_slice_window(page: u32, per_page: u32)
    ensures
        first_item(page, per_page) == window_start(page as int, per_page as int) + 1,
        pagination_clause(page, per_page) == "first="@ + decimal(
            (window_start(page as int, per_page as int) + 1) as nat,
        ) + " rows="@ + decimal(per_page as nat),
{
    assert(window_start(page as int, per_page as int) >= 0) by {
        if page > 1 {
            assert((page - 1) * per_page >= 0) by (nonlinear_arith)
                requires
                    page > 1,
            ;
        }
    }
}

} // verus!
