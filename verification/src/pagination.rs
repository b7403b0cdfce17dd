//! Page arithmetic shared by every list endpoint.

use vstd::prelude::*;

verus! {

/// Pagination metadata returned with every list page.
#[derive(Clone, Copy, Debug, PartialEq, Eq, Structural)]
pub struct Pagination {
    /// Requested page number (1-based).
    pub page: u32,
    /// Requested page size.
    pub per_page: u32,
    /// Total number of matching items.
    pub total: u32,
    /// Number of pages needed to show `total` items.
    pub total_pages: u32,
}

/// Number of pages of `per_page` items needed to hold `total` items.
pub open spec fn page_count(total: int, per_page: int) -> int {
    if total == 0 {
        0
    } else {
        (total - 1) / per_page + 1
    }
}

/// First index (inclusive) of the window selected by `page`; page 0 is
/// treated like page 1.
pub open spec fn window_start(page: int, per_page: int) -> int {
    if page <= 1 {
        0
    } else {
        (page - 1) * per_page
    }
}

/// The items that page `page` of size `per_page` shows out of `items`.
pub open spec fn page_window<T>(items: Seq<T>, page: int, per_page: int) -> Seq<T> {
    let start = window_start(page, per_page);
    if start >= items.len() {
        Seq::empty()
    } else if start + per_page >= items.len() {
        items.subrange(start, items.len() as int)
    } else {
        items.subrange(start, start + per_page)
    }
}

/// The total that gvmd reports: the filtered count, else the overall count,
/// else the number of items on the current page (as a `u32`).
pub open spec fn gvmd_total_spec(filtered: Option<u32>, total: Option<u32>, current_len: usize) -> u32 {
    match filtered {
        Some(f) => f,
        None => match total {
            Some(t) => t,
            None => current_len as u32,
        },
    }
}

proof fn lemma_page_count_bounds(total: int, per_page: int)
    requires
        total >= 0,
        total == 0 || per_page > 0,
    ensures
        page_count(total, per_page) >= 0,
        page_count(total, per_page) <= total,
        page_count(total, per_page) * per_page >= total,
        total > 0 ==> (page_count(total, per_page) - 1) * per_page < total,
{
    if total > 0 {
        let q = (total - 1) / per_page;
        let r = (total - 1) % per_page;
        assert(total - 1 == q * per_page + r && 0 <= r < per_page) by (nonlinear_arith)
            requires
                per_page > 0,
                total >= 1,
                q == (total - 1) / per_page,
                r == (total - 1) % per_page,
        ;
        assert(q <= total - 1) by (nonlinear_arith)
            requires
                per_page > 0,
                q >= 0,
                r >= 0,
                total - 1 == q * per_page + r,
        ;
        assert((q + 1) * per_page >= total) by (nonlinear_arith)
            requires
                total - 1 == q * per_page + r,
                0 <= r < per_page,
        ;
    }
}

/// The pagination metadata of page `page` of `total` items.
pub open spec fn pagination_for(total: u32, page: u32, per_page: u32) -> Pagination {
    Pagination {
        page,
        per_page,
        total,
        total_pages: page_count(total as int, per_page as int) as u32,
    }
}

/// Builds pagination metadata for a page of a result set of `total` items.
pub fn paged_pagination(total: u32, page: u32, per_page: u32) -> (result: Pagination)
    requires
        total == 0 || per_page > 0,
    ensures
        result == pagination_for(total, page, per_page),
        result.page == page,
        result.per_page == per_page,
        result.total == total,
        result.total_pages == page_count(total as int, per_page as int),
        result.total_pages * per_page >= total,
        total > 0 ==> (result.total_pages - 1) * per_page < total,
{
    proof {
        lemma_page_count_bounds(total as int, per_page as int);
    }
    let total_pages = if total == 0 {
        0
    } else {
        ((total - 1) / per_page) + 1
    };
    Pagination { page, per_page, total, total_pages }
}

/// Chooses the total that gvmd reported for a list request.
pub fn gvmd_total(filtered: Option<u32>, total: Option<u32>, current_len: usize) -> (result: u32)
    ensures
        result == gvmd_total_spec(filtered, total, current_len),
{
    match filtered {
        Some(f) => f,
        None => match total {
            Some(t) => t,
            None => current_len as u32,
        },
    }
}

/// Selects the items of page `page` (1-based; 0 behaves like 1) out of the
/// complete result set `items`.
pub fn paged_slice<T>(items: Vec<T>, page: u32, per_page: u32) -> (result: Vec<T>)
    ensures
        result@ == page_window(items@, page as int, per_page as int),
{
    let first: u64 = if page == 0 { 0 } else { (page - 1) as u64 };
    assert(first * (per_page as u64) <= 0xffff_ffff * 0xffff_ffff) by (nonlinear_arith)
        requires
            first <= 0xffff_ffff,
            per_page <= 0xffff_ffff,
    ;
    let offset: u64 = first * (per_page as u64);
    assert(offset == window_start(page as int, per_page as int)) by {
        if page <= 1 {
            assert(first == 0);
            assert(offset == 0) by (nonlinear_arith)
                requires
                    first == 0,
                    offset == first * per_page,
            ;
        } else {
            assert(first == page - 1);
        }
    }
    let mut items = items;
    let len = items.len();
    if offset >= len as u64 {
        return Vec::new();
    }
    let start = offset as usize;
    let mut rest = items.split_off(start);
    rest.truncate(per_page as usize);
    proof {
        assert(rest@ =~= page_window(items@ + rest@, page as int, per_page as int)) by {
            assert(items@.len() == start);
        }
    }
    rest
}

/// Whether a backend that accepted pagination terms returned nothing for a
/// later page without reporting any total, so the page has to be cut out
/// of the complete result set instead.
pub fn needs_client_side_pagination_fallback<T>(items: &Vec<T>, total: u32, page: u32) -> (result: bool)
    ensures
        result == (page > 1 && items@.len() == 0 && total == 0),
{
    page > 1 && items.len() == 0 && total == 0
}

/// One page of a list result.
#[derive(Clone, Debug, PartialEq, Eq)]
pub struct Page<T> {
    /// Page items.
    pub data: Vec<T>,
    /// Pagination metadata.
    pub pagination: Pagination,
}

/// What a list request does once gvmd answered the paginated query.
#[derive(Clone, Debug, PartialEq, Eq)]
pub enum ListStep<T> {
    /// The answer is the page.
    Complete(Page<T>),
    /// The backend ignored the pagination terms: fetch the unpaginated
    /// result set and cut the page out of it.
    FetchUnpaginated,
}

/// When, besides a later page that came back empty without any total, a
/// list endpoint distrusts gvmd's pagination: on every empty answer, and
/// on an answer with more entries than a page holds.
#[derive(Clone, Copy, Debug, PartialEq, Eq, Structural)]
pub struct FallbackRule {
    pub when_empty: bool,
    pub when_oversized: bool,
}

/// Whether the answer to a paginated query must be replaced by a page cut
/// out of the unpaginated result set.
pub open spec fn needs_unpaginated_fetch(len: int, total: u32, page: u32, per_page: u32, rule: FallbackRule) -> bool {
    ||| rule.when_empty && len == 0
    ||| rule.when_oversized && len > per_page
    ||| page > 1 && len == 0 && total == 0
}

/// Builds the page from the answer to a list query, when gvmd paginated it.
pub fn page_from_answer<T>(items: Vec<T>, filtered: Option<u32>, total: Option<u32>, page: u32, per_page: u32) -> (result: Page<T>)
    requires
        gvmd_total_spec(filtered, total, items@.len() as usize) == 0 || per_page > 0,
    ensures
        result.data@ == items@,
        result.pagination == pagination_for(
            gvmd_total_spec(filtered, total, items@.len() as usize),
            page,
            per_page,
        ),
{
    let t = gvmd_total(filtered, total, items.len());
    Page { data: items, pagination: paged_pagination(t, page, per_page) }
}

/// Decides, from the answer to a paginated list query, whether it is the
/// page or whether the page has to be cut out of the unpaginated result
/// set: always so for a later page that came back empty without any total,
/// and as `rule` says for empty and oversized answers.
pub fn first_answer_step<T>(
    items: Vec<T>,
    filtered: Option<u32>,
    total: Option<u32>,
    page: u32,
    per_page: u32,
    rule: FallbackRule,
) -> (result: ListStep<T>)
    requires
        needs_unpaginated_fetch(
            items@.len() as int,
            gvmd_total_spec(filtered, total, items@.len() as usize),
            page,
            per_page,
            rule,
        ) || gvmd_total_spec(filtered, total, items@.len() as usize) == 0 || per_page > 0,
    ensures
        match result {
            ListStep::FetchUnpaginated => needs_unpaginated_fetch(
                items@.len() as int,
                gvmd_total_spec(filtered, total, items@.len() as usize),
                page,
                per_page,
                rule,
            ),
            ListStep::Complete(p) => !needs_unpaginated_fetch(
                items@.len() as int,
                gvmd_total_spec(filtered, total, items@.len() as usize),
                page,
                per_page,
                rule,
            ) && p.data@ == items@ && p.pagination == pagination_for(
                gvmd_total_spec(filtered, total, items@.len() as usize),
                page,
                per_page,
            ),
        },
{
    let t = gvmd_total(filtered, total, items.len());
    if (rule.when_empty && items.len() == 0) || (rule.when_oversized && items.len() > per_page as usize)
        || needs_client_side_pagination_fallback(&items, t, page) {
        return ListStep::FetchUnpaginated;
    }
    ListStep::Complete(Page { data: items, pagination: paged_pagination(t, page, per_page) })
}

/// Cuts the requested page out of the complete (unpaginated) result set.
pub fn page_from_complete_set<T>(all: Vec<T>, filtered: Option<u32>, total: Option<u32>, page: u32, per_page: u32) -> (result: Page<T>)
    requires
        gvmd_total_spec(filtered, total, all@.len() as usize) == 0 || per_page > 0,
    ensures
        result.data@ == page_window(all@, page as int, per_page as int),
        result.pagination == pagination_for(
            gvmd_total_spec(filtered, total, all@.len() as usize),
            page,
            per_page,
        ),
{
    let t = gvmd_total(filtered, total, all.len());
    Page { data: paged_slice(all, page, per_page), pagination: paged_pagination(t, page, per_page) }
}

/// Every item of a result set shows up on exactly the page its position
/// predicts: item `i` is entry `i % per_page` of page `i / per_page + 1`,
/// and that page is within the page count.
pub proof fn page_windows_cover_items<T>(items: Seq<T>, per_page: int, i: int)
    requires
        per_page > 0,
        0 <= i < items.len(),
    ensures
        i / per_page + 1 <= page_count(items.len() as int, per_page),
        i % per_page < page_window(items, i / per_page + 1, per_page).len(),
        page_window(items, i / per_page + 1, per_page)[i % per_page] == items[i],
{
    let p = i / per_page + 1;
    let q = i / per_page;
    let r = i % per_page;
    assert(i == q * per_page + r && 0 <= r < per_page && q >= 0) by (nonlinear_arith)
        requires
            per_page > 0,
            i >= 0,
            q == i / per_page,
            r == i % per_page,
    ;
    assert(window_start(p, per_page) == q * per_page) by {
        if p <= 1 {
            assert(q == 0);
            assert(q * per_page == 0) by (nonlinear_arith)
                requires
                    q == 0,
            ;
        }
    }
    let n = items.len() as int;
    assert(q <= (n - 1) / per_page) by (nonlinear_arith)
        requires
            per_page > 0,
            i <= n - 1,
            q == i / per_page,
            i >= 0,
    ;
}

/// Pages past the page count are empty and pages within it are not.
pub proof fn page_windows_within_count<T>(items: Seq<T>, page: int, per_page: int)
    requires
        per_page > 0,
        page >= 1,
    ensures
        page > page_count(items.len() as int, per_page) ==> page_window(items, page, per_page).len() == 0,
        page <= page_count(items.len() as int, per_page) ==> page_window(items, page, per_page).len() > 0,
{
    let n = items.len() as int;
    let start = window_start(page, per_page);
    assert(start == (page - 1) * per_page) by {
        if page == 1 {
            assert((page - 1) * per_page == 0) by (nonlinear_arith)
                requires
                    page == 1,
            ;
        }
    }
    if n == 0 {
    } else {
        let c = (n - 1) / per_page + 1;
        if page > c {
            assert((page - 1) * per_page >= c * per_page) by (nonlinear_arith)
                requires
                    page - 1 >= c,
                    per_page > 0,
            ;
            lemma_page_count_bounds(n, per_page);
        } else {
            assert((page - 1) * per_page <= (c - 1) * per_page) by (nonlinear_arith)
                requires
                    page - 1 <= c - 1,
                    per_page > 0,
            ;
            lemma_page_count_bounds(n, per_page);
        }
    }
}

/// Pages `1..=k` of size `per_page` of `items`, put together in order.
pub open spec fn pages_joined<T>(items: Seq<T>, per_page: int, k: int) -> Seq<T>
    decreases k,
{
    if k <= 0 {
        Seq::empty()
    } else {
        pages_joined(items, per_page, k - 1) + page_window(items, k, per_page)
    }
}

proof fn lemma_pages_joined_prefix<T>(items: Seq<T>, per_page: int, k: int)
    requires
        per_page > 0,
        0 <= k <= page_count(items.len() as int, per_page),
    ensures
        k * per_page < items.len() ==> pages_joined(items, per_page, k) == items.subrange(0, k * per_page),
        k * per_page >= items.len() ==> pages_joined(items, per_page, k) == items,
    decreases k,
{
    let n = items.len() as int;
    if k == 0 {
        assert(k * per_page == 0) by (nonlinear_arith)
            requires
                k == 0,
        ;
        assert(pages_joined(items, per_page, k) =~= items.subrange(0, 0));
        if n == 0 {
            assert(items =~= Seq::<T>::empty());
        }
    } else {
        lemma_pages_joined_prefix(items, per_page, k - 1);
        lemma_page_count_bounds(n, per_page);
        let c = page_count(n, per_page);
        assert((k - 1) * per_page <= (c - 1) * per_page) by (nonlinear_arith)
            requires
                k <= c,
                per_page > 0,
        ;
        assert(k * per_page == (k - 1) * per_page + per_page) by (nonlinear_arith);
        let start = (k - 1) * per_page;
        assert(window_start(k, per_page) == start) by {
            if k == 1 {
                assert(start == 0) by (nonlinear_arith)
                    requires
                        k == 1,
                        start == (k - 1) * per_page,
                ;
            }
        }
        assert(0 <= start) by (nonlinear_arith)
            requires
                k >= 1,
                per_page > 0,
                start == (k - 1) * per_page,
        ;
        assert(start < n);
        let prev = pages_joined(items, per_page, k - 1);
        assert(prev =~= items.subrange(0, start));
        if k * per_page < n {
            assert(pages_joined(items, per_page, k) =~= items.subrange(0, k * per_page));
        } else {
            assert(pages_joined(items, per_page, k) =~= items);
        }
    }
}

/// Put together in order, pages 1 up to the page count give the result set
/// back, with no item lost or repeated; every later page is empty.
pub proof fn pages_rebuild_items<T>(items: Seq<T>, per_page: int)
    requires
        per_page > 0,
    ensures
        pages_joined(items, per_page, page_count(items.len() as int, per_page)) == items,
        forall|p: int| p > page_count(items.len() as int, per_page) ==> #[trigger] page_window(items, p, per_page).len() == 0,
{
    let n = items.len() as int;
    let c = page_count(n, per_page);
    lemma_page_count_bounds(n, per_page);
    lemma_pages_joined_prefix(items, per_page, c);
    assert forall|p: int| p > c implies #[trigger] page_window(items, p, per_page).len() == 0 by {
        if p >= 1 {
            page_windows_within_count(items, p, per_page);
        }
    }
}

} // verus!
