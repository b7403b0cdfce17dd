use gvm_gateway::errors::GatewayError;
use gvm_gateway::gvmd::listings::{
    checked_filter_id, list_binding, reserved_terms, FilterIdCheck, FilterScope, ListEndpoint,
    ListOrder,
};
use gvm_gateway::gvmd::scan_configs::{config_usage_selection, UsageSelection};
use gvm_gateway::pagination::FallbackRule;
use gvm_gateway::domain::supporting_resources::{Host, SupportingResourceMeta};
use gvm_gateway::gvmd::list_order::{
    asset_page, config_page, host_page, nvts_in_order, ordered_page, ordered_page_from_complete_set,
    AssetOrderFields, ConfigOrderFields, NvtOrderFields,
};

#[test]
fn nvt_listing_distrusts_oversized_answers_and_sorts_by_oid() {
    let b = list_binding(ListEndpoint::Nvts);
    assert_eq!(b.fallback, Some(FallbackRule { when_empty: false, when_oversized: true }));
    assert_eq!(b.order, ListOrder::OidThenName);
    assert_eq!(b.filter_id, FilterIdCheck::Named);
    assert!(b.paged);
}

#[test]
fn specialized_targets_refetch_empty_answers() {
    for e in [ListEndpoint::OciImageTargets, ListEndpoint::WebApplicationTargets] {
        assert_eq!(list_binding(e).fallback, Some(FallbackRule { when_empty: true, when_oversized: false }));
    }
    for e in [ListEndpoint::Targets, ListEndpoint::Agents, ListEndpoint::AgentGroups] {
        assert_eq!(list_binding(e).fallback, Some(FallbackRule { when_empty: false, when_oversized: false }));
    }
    assert_eq!(list_binding(ListEndpoint::Tasks).fallback, None);
}

#[test]
fn endpoint_scopes_orders_and_filter_checks() {
    let configs = list_binding(ListEndpoint::Configs);
    assert_eq!(configs.scope, FilterScope::Usage);
    assert_eq!(configs.order, ListOrder::UsageTypeNameId);
    assert_eq!(list_binding(ListEndpoint::Assets).order, ListOrder::AssetTypeNameValueId);
    assert_eq!(list_binding(ListEndpoint::Hosts).order, ListOrder::NameIpId);
    let settings = list_binding(ListEndpoint::UserSettings);
    assert!(!settings.paged);
    assert_eq!(settings.order, ListOrder::Name);
    assert_eq!(settings.filter_id, FilterIdCheck::Identifier);
    assert_eq!(list_binding(ListEndpoint::ReportResults).scope, FilterScope::Report);
    assert_eq!(list_binding(ListEndpoint::ReportDetails).scope, FilterScope::ReportDetail);
    assert_eq!(list_binding(ListEndpoint::NvtFamilies).filter_id, FilterIdCheck::NotTaken);
}

#[test]
fn reserved_terms_follow_the_scope() {
    assert_eq!(reserved_terms(FilterScope::Report, &UsageSelection::All), vec!["report_id"]);
    assert_eq!(reserved_terms(FilterScope::ReportDetail, &UsageSelection::All), vec!["report_id"]);
    assert_eq!(
        reserved_terms(FilterScope::Usage, &config_usage_selection(Some("audit"))),
        vec!["usage_type"]
    );
    assert!(reserved_terms(FilterScope::Usage, &config_usage_selection(Some("scan"))).is_empty());
    assert!(reserved_terms(FilterScope::Plain, &UsageSelection::All).is_empty());
}

#[test]
fn saved_filter_identifiers_are_checked_per_endpoint() {
    match checked_filter_id(FilterIdCheck::Named, Some("a b")) {
        Err(GatewayError::InvalidInput(d)) => assert_eq!(d, "invalid filterId"),
        other => panic!("unexpected {other:?}"),
    }
    match checked_filter_id(FilterIdCheck::Identifier, Some("a b")) {
        Err(GatewayError::InvalidInput(d)) => assert_eq!(d, "invalid resource identifier: a b"),
        other => panic!("unexpected {other:?}"),
    }
    assert!(checked_filter_id(FilterIdCheck::NotTaken, Some("a b")).unwrap().is_none());
    assert_eq!(checked_filter_id(FilterIdCheck::Named, Some("f-1")).unwrap().unwrap().as_str(), "f-1");
}

fn host(id: &str, name: &str, ip: Option<&str>) -> Host {
    Host {
        meta: SupportingResourceMeta {
            id: id.to_string(),
            name: name.to_string(),
            comment: None,
            creation_time: None,
            modification_time: None,
            writable: true,
            in_use: false,
        },
        ip: ip.map(|v| v.to_string()),
        hostname: None,
        severity: None,
        os: None,
    }
}

fn config(usage_type: &str, name: &str, id: &str) -> ConfigOrderFields {
    ConfigOrderFields { usage_type: usage_type.to_string(), name: name.to_string(), id: id.to_string() }
}

#[test]
fn config_page_orders_by_usage_type_name_and_id() {
    let items = vec![
        (config("scan", "Full", "b"), "scan-full-b"),
        (config("audit", "Zeta", "a"), "audit-zeta"),
        (config("scan", "Full", "a"), "scan-full-a"),
        (config("scan", "Base", "c"), "scan-base"),
    ];
    let page = config_page(items, Some(7), Some(9), 1, 10);
    assert_eq!(page.data, vec!["audit-zeta", "scan-base", "scan-full-a", "scan-full-b"]);
    assert_eq!(page.pagination.total, 7);
    assert_eq!(page.pagination.total_pages, 1);
}

#[test]
fn asset_page_orders_by_type_name_value_and_id() {
    let f = |t: &str, n: &str, v: Option<&str>, id: &str| AssetOrderFields {
        asset_type: t.to_string(),
        name: n.to_string(),
        value: v.map(|x| x.to_string()),
        id: id.to_string(),
    };
    let items = vec![
        (f("tls_certificate", "A", Some("z"), "1"), 1),
        (f("firmware", "B", Some("1.0"), "2"), 2),
        (f("tls_certificate", "A", None, "3"), 3),
        (f("tls_certificate", "A", Some("z"), "0"), 4),
    ];
    let page = asset_page(items, None, None, 1, 2);
    assert_eq!(page.data, vec![2, 3, 4, 1]);
    assert_eq!(page.pagination.total, 4);
    assert_eq!(page.pagination.total_pages, 2);
}

#[test]
fn host_page_orders_by_name_ip_and_id() {
    let items = vec![
        host("3", "web", Some("10.0.0.2")),
        host("2", "db", None),
        host("1", "web", Some("10.0.0.1")),
        host("0", "web", Some("10.0.0.1")),
    ];
    let page = host_page(items, None, Some(4), 1, 10);
    let ids: Vec<&str> = page.data.iter().map(|h| h.meta.id.as_str()).collect();
    assert_eq!(ids, vec!["2", "0", "1", "3"]);
    assert_eq!(page.pagination.total, 4);
}

#[test]
fn nvts_are_ordered_by_oid_then_name_and_equal_keys_keep_their_order() {
    let f = |oid: &str, name: &str| NvtOrderFields { oid: oid.to_string(), name: name.to_string() };
    let out = nvts_in_order(vec![
        (f("1.3.6.1.4.1.25623.1.0.2", "b"), "second"),
        (f("1.3.6.1.4.1.25623.1.0.1", "z"), "first"),
        (f("1.3.6.1.4.1.25623.1.0.2", "a"), "second-a"),
        (f("1.3.6.1.4.1.25623.1.0.2", "b"), "second-again"),
    ]);
    assert_eq!(out, vec!["first", "second-a", "second", "second-again"]);
}

#[test]
fn ordered_page_from_complete_set_sorts_before_cutting() {
    let key = |k: &str| vec![Some(k.to_string())];
    let entries = vec![(key("d"), 'd'), (key("a"), 'a'), (key("c"), 'c'), (key("b"), 'b'), (key("e"), 'e')];
    let page = ordered_page_from_complete_set(entries, None, None, 2, 2);
    assert_eq!(page.data, vec!['c', 'd']);
    assert_eq!(page.pagination.total, 5);
    assert_eq!(page.pagination.total_pages, 3);
    let entries = vec![(key("b"), 2), (key("a"), 1)];
    let page = ordered_page(entries, Some(0), None, 1, 0);
    assert_eq!(page.data, vec![1, 2]);
    assert_eq!(page.pagination.total_pages, 0);
}
