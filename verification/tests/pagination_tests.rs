use gvm_gateway::domain::supporting_resources::{resource_meta, resource_ref};
use gvm_gateway::filters::{
    composed_filter, paginated_filter, paginated_filter_with_reserved_terms, pagination_text,
};
use gvm_gateway::pagination::{
    first_answer_step, gvmd_total, needs_client_side_pagination_fallback, page_from_answer,
    page_from_complete_set, paged_pagination, paged_slice, FallbackRule, ListStep, Pagination,
};
use gvm_gateway::errors::GatewayError;

#[test]
fn paged_pagination_counts_pages() {
    assert_eq!(
        paged_pagination(0, 1, 25),
        Pagination { page: 1, per_page: 25, total: 0, total_pages: 0 }
    );
    assert_eq!(paged_pagination(1, 1, 25).total_pages, 1);
    assert_eq!(paged_pagination(25, 1, 25).total_pages, 1);
    assert_eq!(paged_pagination(26, 2, 25).total_pages, 2);
    assert_eq!(paged_pagination(101, 3, 10).total_pages, 11);
    assert_eq!(paged_pagination(0, 4, 0).total_pages, 0);
    assert_eq!(paged_pagination(u32::MAX, 1, 1).total_pages, u32::MAX);
}

#[test]
fn gvmd_total_prefers_filtered_then_total_then_length() {
    assert_eq!(gvmd_total(Some(7), Some(9), 3), 7);
    assert_eq!(gvmd_total(None, Some(9), 3), 9);
    assert_eq!(gvmd_total(None, None, 3), 3);
}

#[test]
fn paged_slice_cuts_the_requested_window() {
    let items: Vec<u32> = (1..=10).collect();
    assert_eq!(paged_slice(items.clone(), 1, 3), vec![1, 2, 3]);
    assert_eq!(paged_slice(items.clone(), 0, 3), vec![1, 2, 3]);
    assert_eq!(paged_slice(items.clone(), 4, 3), vec![10]);
    assert_eq!(paged_slice(items.clone(), 5, 3), Vec::<u32>::new());
    assert_eq!(paged_slice(items.clone(), 2, 0), Vec::<u32>::new());
    assert_eq!(paged_slice(items, u32::MAX, u32::MAX), Vec::<u32>::new());
}

#[test]
fn fallback_only_for_empty_later_pages_without_total() {
    let empty: Vec<u8> = Vec::new();
    assert!(needs_client_side_pagination_fallback(&empty, 0, 2));
    assert!(!needs_client_side_pagination_fallback(&empty, 0, 1));
    assert!(!needs_client_side_pagination_fallback(&empty, 5, 2));
    assert!(!needs_client_side_pagination_fallback(&vec![1u8], 0, 2));
}

#[test]
fn page_from_answer_keeps_the_answer() {
    let page = page_from_answer(vec!["a", "b"], Some(12), None, 2, 2);
    assert_eq!(page.data, vec!["a", "b"]);
    assert_eq!(page.pagination, Pagination { page: 2, per_page: 2, total: 12, total_pages: 6 });
}

#[test]
fn first_answer_step_decides_on_fallback() {
    let plain = FallbackRule { when_empty: false, when_oversized: false };
    match first_answer_step(vec![1, 2], None, Some(4), 1, 2, plain) {
        ListStep::Complete(page) => {
            assert_eq!(page.data, vec![1, 2]);
            assert_eq!(page.pagination.total_pages, 2);
        }
        ListStep::FetchUnpaginated => panic!("the answer is the page"),
    }
    assert_eq!(
        first_answer_step(Vec::<u8>::new(), None, None, 3, 2, plain),
        ListStep::FetchUnpaginated
    );
    assert!(matches!(
        first_answer_step(Vec::<u8>::new(), None, None, 1, 2, plain),
        ListStep::Complete(_)
    ));
    let empty_rule = FallbackRule { when_empty: true, when_oversized: false };
    assert_eq!(
        first_answer_step(Vec::<u8>::new(), None, None, 1, 2, empty_rule),
        ListStep::FetchUnpaginated
    );
    let oversized_rule = FallbackRule { when_empty: false, when_oversized: true };
    assert_eq!(
        first_answer_step(vec![1, 2, 3], None, Some(3), 1, 2, oversized_rule),
        ListStep::FetchUnpaginated
    );
    assert!(matches!(
        first_answer_step(vec![1, 2], None, Some(3), 1, 2, oversized_rule),
        ListStep::Complete(_)
    ));
}

#[test]
fn page_from_complete_set_cuts_and_counts() {
    let all: Vec<u32> = (1..=7).collect();
    let page = page_from_complete_set(all, None, None, 3, 3);
    assert_eq!(page.data, vec![7]);
    assert_eq!(page.pagination, Pagination { page: 3, per_page: 3, total: 7, total_pages: 3 });
}

#[test]
fn every_item_is_on_the_page_its_position_predicts() {
    let items: Vec<u32> = (0..23).collect();
    let per_page = 5u32;
    let count = paged_pagination(items.len() as u32, 1, per_page).total_pages;
    for (i, item) in items.iter().enumerate() {
        let page = (i as u32) / per_page + 1;
        assert!(page <= count);
        let window = paged_slice(items.clone(), page, per_page);
        assert_eq!(window[i % per_page as usize], *item);
    }
    assert!(paged_slice(items.clone(), count + 1, per_page).is_empty());
    assert!(!paged_slice(items, count, per_page).is_empty());
}

#[test]
fn pagination_clause_names_the_first_item_and_the_page_size() {
    assert_eq!(pagination_text(1, 25), "first=1 rows=25");
    assert_eq!(pagination_text(0, 25), "first=1 rows=25");
    assert_eq!(pagination_text(3, 10), "first=21 rows=10");
    assert_eq!(pagination_text(u32::MAX, u32::MAX), "first=18446744060824649731 rows=4294967295");
}

#[test]
fn paginated_filter_joins_prefix_filter_and_window() {
    assert_eq!(
        paginated_filter(Some("report_id=abc"), Some("severity>5"), 2, 10).unwrap(),
        Some("report_id=abc severity>5 first=11 rows=10".to_string())
    );
    assert_eq!(
        paginated_filter(None, None, 1, 25).unwrap(),
        Some("first=1 rows=25".to_string())
    );
    assert_eq!(
        paginated_filter(None, Some("   "), 1, 25).unwrap(),
        Some("first=1 rows=25".to_string())
    );
}

#[test]
fn composed_filter_puts_the_saved_term_first() {
    assert_eq!(
        composed_filter(Some("usage_type=x"), Some("name~web"), Some("sort=name"), None, &[]).unwrap(),
        Some("name~web usage_type=x sort=name".to_string())
    );
    assert_eq!(composed_filter(None, None, None, None, &[]).unwrap(), None);
    assert_eq!(
        composed_filter(None, Some(""), None, Some((1, 5)), &[]).unwrap(),
        Some("first=1 rows=5".to_string())
    );
}

#[test]
fn composed_filter_refuses_reserved_terms() {
    match composed_filter(None, None, Some("Report_ID=other"), Some((1, 5)), &["task_id", "report_id"]) {
        Err(GatewayError::InvalidInput(detail)) => {
            assert_eq!(detail, "filter contains reserved term 'report_id'")
        }
        other => panic!("unexpected {other:?}"),
    }
    assert!(composed_filter(None, None, Some("report=1"), None, &["report_id"]).is_ok());
    assert!(composed_filter(None, Some("report_id=x"), None, None, &["report_id"]).is_ok());
}

#[test]
fn reserved_terms_apply_to_the_caller_filter_only() {
    assert_eq!(
        paginated_filter_with_reserved_terms(Some("usage_type=audit"), Some("name~x"), 1, 10, &["usage_type"]).unwrap(),
        Some("usage_type=audit name~x first=1 rows=10".to_string())
    );
    match paginated_filter_with_reserved_terms(None, Some("usage_type=scan"), 1, 10, &["usage_type"]) {
        Err(GatewayError::InvalidInput(d)) => assert_eq!(d, "filter contains reserved term 'usage_type'"),
        other => panic!("unexpected {other:?}"),
    }
}

#[test]
fn sample_resource_records() {
    let meta = resource_meta();
    assert_eq!(meta.id, "123e4567-e89b-12d3-a456-426614174000");
    assert_eq!(meta.name, "resource");
    assert!(meta.writable && !meta.in_use);
    let r = resource_ref("abc");
    assert_eq!(r.id, "abc");
    assert!(r.name.is_none());
}

#[test]
fn pages_put_together_give_the_items_back() {
    let items: Vec<u32> = (1..=11).collect();
    for per_page in 1u32..=12 {
        let count = paged_pagination(items.len() as u32, 1, per_page).total_pages;
        let mut joined = Vec::new();
        for p in 1..=count {
            joined.extend(paged_slice(items.clone(), p, per_page));
        }
        assert_eq!(joined, items);
        assert!(paged_slice(items.clone(), count + 1, per_page).is_empty());
    }
}
