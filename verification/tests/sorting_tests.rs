use gvm_gateway::gvmd::alerts::{alert_data, AlertData};
use gvm_gateway::gvmd::scan_configs::page_by_name;
use gvm_gateway::sorting::{key_less, sort_by_keys, sort_by_name, text_less};

fn key(fields: &[Option<&str>]) -> Vec<Option<String>> {
    fields.iter().map(|f| f.map(|s| s.to_string())).collect()
}

#[test]
fn text_order_is_the_order_of_str() {
    let samples = ["", "a", "ab", "b", "B", "é", "z", "aa", "abc", "äb"];
    for a in samples {
        for b in samples {
            assert_eq!(text_less(a, b), a < b, "{a:?} < {b:?}");
        }
    }
}

#[test]
fn key_order_is_the_order_of_option_tuples() {
    let keys = [
        key(&[None, Some("a")]),
        key(&[Some("a"), None]),
        key(&[Some("a"), Some("b")]),
        key(&[Some("b")]),
        key(&[]),
        key(&[Some("a")]),
    ];
    for a in &keys {
        for b in &keys {
            assert_eq!(key_less(a, b), a < b, "{a:?} < {b:?}");
        }
    }
}

#[test]
fn sort_by_keys_is_stable() {
    let entries = vec![
        (key(&[Some("scan"), Some("b")]), 1),
        (key(&[Some("policy"), Some("z")]), 2),
        (key(&[Some("scan"), Some("a")]), 3),
        (key(&[None, Some("q")]), 4),
        (key(&[Some("scan"), Some("a")]), 5),
    ];
    let sorted: Vec<i32> = sort_by_keys(entries).into_iter().map(|(_, v)| v).collect();
    assert_eq!(sorted, vec![4, 2, 3, 5, 1]);
}

#[test]
fn sort_by_keys_agrees_with_std_stable_sort() {
    let names = ["delta", "alpha", "charlie", "alpha", "bravo", "", "Alpha"];
    let entries: Vec<(Vec<Option<String>>, usize)> = names
        .iter()
        .enumerate()
        .map(|(i, n)| (vec![Some(n.to_string())], i))
        .collect();
    let mut expected = entries.clone();
    expected.sort_by(|l, r| l.0.cmp(&r.0));
    assert_eq!(sort_by_keys(entries), expected);
}

#[test]
fn alert_data_is_ordered_by_name() {
    let data = alert_data(vec![
        ("to_address".to_string(), "ops@example.com".to_string()),
        ("status".to_string(), "Done".to_string()),
        ("severity".to_string(), "5.0".to_string()),
    ]);
    assert_eq!(
        data,
        vec![
            AlertData { name: "severity".to_string(), value: "5.0".to_string() },
            AlertData { name: "status".to_string(), value: "Done".to_string() },
            AlertData { name: "to_address".to_string(), value: "ops@example.com".to_string() },
        ]
    );
    assert!(alert_data(Vec::new()).is_empty());
}

#[test]
fn sort_by_name_is_stable_and_ordered() {
    let entries = vec![
        ("Web".to_string(), 1),
        ("DNS".to_string(), 2),
        ("Web".to_string(), 3),
        ("".to_string(), 4),
    ];
    let names: Vec<i32> = sort_by_name(entries).into_iter().map(|(_, v)| v).collect();
    assert_eq!(names, vec![4, 2, 1, 3]);
}

#[test]
fn named_entries_are_paged_by_name() {
    let nvts = vec![
        ("gamma".to_string(), 'g'),
        ("alpha".to_string(), 'a'),
        ("delta".to_string(), 'd'),
        ("beta".to_string(), 'b'),
    ];
    let page = page_by_name(nvts.clone(), None, 2, 3);
    assert_eq!(page.data, vec!['g']);
    assert_eq!(page.pagination.total, 4);
    assert_eq!(page.pagination.total_pages, 2);
    assert_eq!(page_by_name(nvts.clone(), None, 1, 3).data, vec!['a', 'b', 'd']);
    let families = page_by_name(nvts, Some(40), 1, 2);
    assert_eq!(families.data, vec!['a', 'b']);
    assert_eq!(families.pagination.total, 40);
    assert_eq!(families.pagination.total_pages, 20);
}

#[test]
fn alert_data_of_distinct_names_is_strictly_ascending() {
    let data = alert_data(vec![
        ("b".to_string(), "2".to_string()),
        ("a".to_string(), "1".to_string()),
        ("c".to_string(), "3".to_string()),
    ]);
    let names: Vec<&str> = data.iter().map(|d| d.name.as_str()).collect();
    assert_eq!(names, vec!["a", "b", "c"]);
    assert!(names.windows(2).all(|w| w[0] < w[1]));
}
