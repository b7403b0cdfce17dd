//! The order in which list endpoints hand out their entries, and the pages
//! made of entries put in that order. Each ordered endpoint sorts stably by
//! a tuple of text fields (see `sorting`); the key of each is built here.

use vstd::prelude::*;

use crate::domain::supporting_resources::Host;
use crate::pagination::{
    gvmd_total, gvmd_total_spec, page_window, paged_pagination, paged_slice, pagination_for, Page,
};
use crate::sorting::{
    field_before, field_view, is_permutation, key_before, key_view, sort_by_keys, stably_sorted_by, text_before,
};

verus! {

/// `out` holds `values` in the order of their sort keys `keys`: reordered
/// by the permutation `p`, in key order, entries with equal keys in the
/// order they came in.
pub open spec fn ordered_by<T>(out: Seq<T>, keys: Seq<Seq<Option<Seq<char>>>>, values: Seq<T>, p: Seq<int>) -> bool {
    &&& keys.len() == values.len()
    &&& out.len() == values.len()
    &&& is_permutation(p, values.len() as int)
    &&& forall|i: int| 0 <= i < out.len() ==> #[trigger] out[i] == values[p[i]]
    &&& forall|i: int, j: int|
        #![trigger p[i], p[j]]
        0 <= i < j < out.len() ==> !key_before(keys[p[j]], keys[p[i]])
    &&& forall|i: int, j: int|
        #![trigger p[i], p[j]]
        0 <= i < j < out.len() && keys[p[i]] == keys[p[j]] ==> p[i] < p[j]
}

/// The sort keys of keyed entries.
pub open spec fn keys_of<T>(entries: Seq<(Vec<Option<String>>, T)>) -> Seq<Seq<Option<Seq<char>>>> {
    entries.map_values(|e: (Vec<Option<String>>, T)| key_view(e.0))
}

/// The entries themselves, without their keys.
pub open spec fn values_of<T>(entries: Seq<(Vec<Option<String>>, T)>) -> Seq<T> {
    entries.map_values(|e: (Vec<Option<String>>, T)| e.1)
}

/// Puts keyed entries in key order, keeping entries with equal keys in the
/// order they came in, and drops the keys.
pub fn entries_in_order<T>(entries: Vec<(Vec<Option<String>>, T)>) -> (out: Vec<T>)
    ensures
        exists|p: Seq<int>| ordered_by(out@, keys_of(entries@), values_of(entries@), p),
{
    let ghost orig = entries@;
    let sorted = sort_by_keys(entries);
    let ghost sv = sorted@;
    let n = sorted.len();
    let mut out: Vec<T> = Vec::new();
    let mut rest = sorted;
    let mut j: usize = 0;
    while j < n
        invariant
            n == sv.len(),
            j <= n,
            rest@ == sv.subrange(j as int, n as int),
            out@.len() == j,
            forall|i: int| 0 <= i < j ==> #[trigger] out@[i] == sv[i].1,
        decreases n - j,
    {
        proof {
            assert(rest@[0] == sv[j as int]);
        }
        let (_, entry) = rest.remove(0);
        proof {
            assert(rest@ =~= sv.subrange(j + 1, n as int));
        }
        out.push(entry);
        j = j + 1;
    }
    proof {
        let p = choose|p: Seq<int>| stably_sorted_by(sv, orig, p);
        let keys = keys_of(orig);
        let values = values_of(orig);
        assert forall|i: int| 0 <= i < out@.len() implies #[trigger] out@[i] == values[p[i]] by {
            assert(sv[i] == orig[p[i]]);
        }
        assert forall|i: int, j: int| #![trigger p[i], p[j]] 0 <= i < j < out@.len() implies !key_before(
            keys[p[j]],
            keys[p[i]],
        ) by {
            assert(sv[i] == orig[p[i]]);
            assert(sv[j] == orig[p[j]]);
            assert(!key_before(key_view(sv[j].0), key_view(sv[i].0)));
        }
        assert forall|i: int, j: int| #![trigger p[i], p[j]] 0 <= i < j < out@.len() && keys[p[i]] == keys[p[j]] implies p[i] < p[j] by {
            assert(sv[i] == orig[p[i]]);
            assert(sv[j] == orig[p[j]]);
        }
        assert(ordered_by(out@, keys, values, p));
    }
    out
}

/// The page gvmd answered with, its entries put in key order.
pub fn ordered_page<T>(
    entries: Vec<(Vec<Option<String>>, T)>,
    filtered: Option<u32>,
    total: Option<u32>,
    page: u32,
    per_page: u32,
) -> (result: Page<T>)
    requires
        gvmd_total_spec(filtered, total, entries@.len() as usize) == 0 || per_page > 0,
    ensures
        exists|p: Seq<int>| ordered_by(result.data@, keys_of(entries@), values_of(entries@), p),
        result.pagination == pagination_for(
            gvmd_total_spec(filtered, total, entries@.len() as usize),
            page,
            per_page,
        ),
{
    let t = gvmd_total(filtered, total, entries.len());
    let ghost orig = entries@;
    let data = entries_in_order(entries);
    let result = Page { data, pagination: paged_pagination(t, page, per_page) };
    proof {
        let p = choose|p: Seq<int>| ordered_by(data@, keys_of(orig), values_of(orig), p);
        assert(ordered_by(result.data@, keys_of(orig), values_of(orig), p));
    }
    result
}

/// The page cut out of the complete (unpaginated) result set once its
/// entries are in key order.
pub fn ordered_page_from_complete_set<T>(
    entries: Vec<(Vec<Option<String>>, T)>,
    filtered: Option<u32>,
    total: Option<u32>,
    page: u32,
    per_page: u32,
) -> (result: Page<T>)
    requires
        gvmd_total_spec(filtered, total, entries@.len() as usize) == 0 || per_page > 0,
    ensures
        exists|all: Seq<T>, p: Seq<int>|
            ordered_by(all, keys_of(entries@), values_of(entries@), p)
                && result.data@ == page_window(all, page as int, per_page as int),
        result.pagination == pagination_for(
            gvmd_total_spec(filtered, total, entries@.len() as usize),
            page,
            per_page,
        ),
{
    let t = gvmd_total(filtered, total, entries.len());
    let ghost orig = entries@;
    let all = entries_in_order(entries);
    let ghost all_view = all@;
    let data = paged_slice(all, page, per_page);
    proof {
        let p = choose|p: Seq<int>| ordered_by(all_view, keys_of(orig), values_of(orig), p);
        assert(ordered_by(all_view, keys_of(orig), values_of(orig), p) && data@ == page_window(
            all_view,
            page as int,
            per_page as int,
        ));
    }
    Page { data, pagination: paged_pagination(t, page, per_page) }
}

/// The fields a scan config is listed by (`ListOrder::UsageTypeNameId`).
#[derive(Clone, Debug, PartialEq, Eq)]
pub struct ConfigOrderFields {
    pub usage_type: String,
    pub name: String,
    pub id: String,
}

/// The fields an asset is listed by (`ListOrder::AssetTypeNameValueId`).
#[derive(Clone, Debug, PartialEq, Eq)]
pub struct AssetOrderFields {
    pub asset_type: String,
    pub name: String,
    pub value: Option<String>,
    pub id: String,
}

/// The fields an NVT is listed by (`ListOrder::OidThenName`).
#[derive(Clone, Debug, PartialEq, Eq)]
pub struct NvtOrderFields {
    pub oid: String,
    pub name: String,
}

/// Sort key of a scan config: usage type, then name, then identifier.
pub open spec fn config_order_key(f: ConfigOrderFields) -> Seq<Option<Seq<char>>> {
    seq![Some(f.usage_type@), Some(f.name@), Some(f.id@)]
}

/// Sort key of an asset: type, then name, then value (an absent value
/// first), then identifier.
pub open spec fn asset_order_key(f: AssetOrderFields) -> Seq<Option<Seq<char>>> {
    seq![Some(f.asset_type@), Some(f.name@), field_view(f.value), Some(f.id@)]
}

/// Sort key of an NVT: OID, then name.
pub open spec fn nvt_order_key(f: NvtOrderFields) -> Seq<Option<Seq<char>>> {
    seq![Some(f.oid@), Some(f.name@)]
}

/// Sort key of a host (`ListOrder::NameIpId`): name, then IP address (an
/// absent address first), then identifier.
pub open spec fn host_order_key(h: Host) -> Seq<Option<Seq<char>>> {
    seq![Some(h.meta.name@), field_view(h.ip), Some(h.meta.id@)]
}

fn text_field(s: &String) -> (f: Option<String>)
    ensures
        field_view(f) == Some(s@),
{
    Some(s.clone())
}

fn optional_field(s: &Option<String>) -> (f: Option<String>)
    ensures
        field_view(f) == field_view(*s),
{
    match s {
        Some(v) => Some(v.clone()),
        None => None,
    }
}

/// The sort key of a scan config.
pub fn config_sort_key(f: &ConfigOrderFields) -> (key: Vec<Option<String>>)
    ensures
        key_view(key) == config_order_key(*f),
{
    let mut key: Vec<Option<String>> = Vec::new();
    key.push(text_field(&f.usage_type));
    key.push(text_field(&f.name));
    key.push(text_field(&f.id));
    proof {
        assert(key_view(key) =~= config_order_key(*f));
    }
    key
}

/// The sort key of an asset.
pub fn asset_sort_key(f: &AssetOrderFields) -> (key: Vec<Option<String>>)
    ensures
        key_view(key) == asset_order_key(*f),
{
    let mut key: Vec<Option<String>> = Vec::new();
    key.push(text_field(&f.asset_type));
    key.push(text_field(&f.name));
    key.push(optional_field(&f.value));
    key.push(text_field(&f.id));
    proof {
        assert(key_view(key) =~= asset_order_key(*f));
    }
    key
}

/// The sort key of an NVT.
pub fn nvt_sort_key(f: &NvtOrderFields) -> (key: Vec<Option<String>>)
    ensures
        key_view(key) == nvt_order_key(*f),
{
    let mut key: Vec<Option<String>> = Vec::new();
    key.push(text_field(&f.oid));
    key.push(text_field(&f.name));
    proof {
        assert(key_view(key) =~= nvt_order_key(*f));
    }
    key
}

/// The sort key of a host.
pub fn host_sort_key(h: &Host) -> (key: Vec<Option<String>>)
    ensures
        key_view(key) == host_order_key(*h),
{
    let mut key: Vec<Option<String>> = Vec::new();
    key.push(text_field(&h.meta.name));
    key.push(optional_field(&h.ip));
    key.push(text_field(&h.meta.id));
    proof {
        assert(key_view(key) =~= host_order_key(*h));
    }
    key
}

/// The sort keys of scan config entries.
pub open spec fn config_keys<T>(items: Seq<(ConfigOrderFields, T)>) -> Seq<Seq<Option<Seq<char>>>> {
    items.map_values(|e: (ConfigOrderFields, T)| config_order_key(e.0))
}

/// The sort keys of asset entries.
pub open spec fn asset_keys<T>(items: Seq<(AssetOrderFields, T)>) -> Seq<Seq<Option<Seq<char>>>> {
    items.map_values(|e: (AssetOrderFields, T)| asset_order_key(e.0))
}

/// The sort keys of NVT entries.
pub open spec fn nvt_keys<T>(items: Seq<(NvtOrderFields, T)>) -> Seq<Seq<Option<Seq<char>>>> {
    items.map_values(|e: (NvtOrderFields, T)| nvt_order_key(e.0))
}

/// The sort keys of hosts.
pub open spec fn host_keys(items: Seq<Host>) -> Seq<Seq<Option<Seq<char>>>> {
    items.map_values(|h: Host| host_order_key(h))
}

/// The entries of fielded items, without their fields.
pub open spec fn entries_of<F, T>(items: Seq<(F, T)>) -> Seq<T> {
    items.map_values(|e: (F, T)| e.1)
}

fn config_entries<T>(items: Vec<(ConfigOrderFields, T)>) -> (entries: Vec<(Vec<Option<String>>, T)>)
    ensures
        entries@.len() == items@.len(),
        keys_of(entries@) == config_keys(items@),
        values_of(entries@) == entries_of(items@),
{
    let ghost orig = items@;
    let n = items.len();
    let mut rest = items;
    let mut entries: Vec<(Vec<Option<String>>, T)> = Vec::new();
    let mut k: usize = 0;
    while k < n
        invariant
            n == orig.len(),
            k <= n,
            rest@ == orig.subrange(k as int, n as int),
            entries@.len() == k,
            forall|i: int| 0 <= i < k ==> key_view((#[trigger] entries@[i]).0) == config_order_key(orig[i].0) && entries@[i].1 == orig[i].1,
        decreases n - k,
    {
        proof {
            assert(rest@[0] == orig[k as int]);
        }
        let (fields, item) = rest.remove(0);
        proof {
            assert(rest@ =~= orig.subrange(k + 1, n as int));
        }
        let key = config_sort_key(&fields);
        entries.push((key, item));
        k = k + 1;
    }
    proof {
        assert(keys_of(entries@) =~= config_keys(orig));
        assert(values_of(entries@) =~= entries_of(orig));
    }
    entries
}

fn asset_entries<T>(items: Vec<(AssetOrderFields, T)>) -> (entries: Vec<(Vec<Option<String>>, T)>)
    ensures
        entries@.len() == items@.len(),
        keys_of(entries@) == asset_keys(items@),
        values_of(entries@) == entries_of(items@),
{
    let ghost orig = items@;
    let n = items.len();
    let mut rest = items;
    let mut entries: Vec<(Vec<Option<String>>, T)> = Vec::new();
    let mut k: usize = 0;
    while k < n
        invariant
            n == orig.len(),
            k <= n,
            rest@ == orig.subrange(k as int, n as int),
            entries@.len() == k,
            forall|i: int| 0 <= i < k ==> key_view((#[trigger] entries@[i]).0) == asset_order_key(orig[i].0) && entries@[i].1 == orig[i].1,
        decreases n - k,
    {
        proof {
            assert(rest@[0] == orig[k as int]);
        }
        let (fields, item) = rest.remove(0);
        proof {
            assert(rest@ =~= orig.subrange(k + 1, n as int));
        }
        let key = asset_sort_key(&fields);
        entries.push((key, item));
        k = k + 1;
    }
    proof {
        assert(keys_of(entries@) =~= asset_keys(orig));
        assert(values_of(entries@) =~= entries_of(orig));
    }
    entries
}

fn nvt_entries<T>(items: Vec<(NvtOrderFields, T)>) -> (entries: Vec<(Vec<Option<String>>, T)>)
    ensures
        entries@.len() == items@.len(),
        keys_of(entries@) == nvt_keys(items@),
        values_of(entries@) == entries_of(items@),
{
    let ghost orig = items@;
    let n = items.len();
    let mut rest = items;
    let mut entries: Vec<(Vec<Option<String>>, T)> = Vec::new();
    let mut k: usize = 0;
    while k < n
        invariant
            n == orig.len(),
            k <= n,
            rest@ == orig.subrange(k as int, n as int),
            entries@.len() == k,
            forall|i: int| 0 <= i < k ==> key_view((#[trigger] entries@[i]).0) == nvt_order_key(orig[i].0) && entries@[i].1 == orig[i].1,
        decreases n - k,
    {
        proof {
            assert(rest@[0] == orig[k as int]);
        }
        let (fields, item) = rest.remove(0);
        proof {
            assert(rest@ =~= orig.subrange(k + 1, n as int));
        }
        let key = nvt_sort_key(&fields);
        entries.push((key, item));
        k = k + 1;
    }
    proof {
        assert(keys_of(entries@) =~= nvt_keys(orig));
        assert(values_of(entries@) =~= entries_of(orig));
    }
    entries
}

fn host_entries(items: Vec<Host>) -> (entries: Vec<(Vec<Option<String>>, Host)>)
    ensures
        entries@.len() == items@.len(),
        keys_of(entries@) == host_keys(items@),
        values_of(entries@) == items@,
{
    let ghost orig = items@;
    let n = items.len();
    let mut rest = items;
    let mut entries: Vec<(Vec<Option<String>>, Host)> = Vec::new();
    let mut k: usize = 0;
    while k < n
        invariant
            n == orig.len(),
            k <= n,
            rest@ == orig.subrange(k as int, n as int),
            entries@.len() == k,
            forall|i: int| 0 <= i < k ==> key_view((#[trigger] entries@[i]).0) == host_order_key(orig[i]) && entries@[i].1 == orig[i],
        decreases n - k,
    {
        proof {
            assert(rest@[0] == orig[k as int]);
        }
        let host = rest.remove(0);
        proof {
            assert(rest@ =~= orig.subrange(k + 1, n as int));
        }
        let key = host_sort_key(&host);
        entries.push((key, host));
        k = k + 1;
    }
    proof {
        assert(keys_of(entries@) =~= host_keys(orig));
        assert(values_of(entries@) =~= orig);
    }
    entries
}

/// Scan config `a` is listed before `b`: by usage type, then name, then
/// identifier.
pub open spec fn config_listed_before(a: ConfigOrderFields, b: ConfigOrderFields) -> bool {
    ||| text_before(a.usage_type@, b.usage_type@)
    ||| a.usage_type@ == b.usage_type@ && text_before(a.name@, b.name@)
    ||| a.usage_type@ == b.usage_type@ && a.name@ == b.name@ && text_before(a.id@, b.id@)
}

/// Asset `a` is listed before `b`: by type, then name, then value (an
/// absent value first), then identifier.
pub open spec fn asset_listed_before(a: AssetOrderFields, b: AssetOrderFields) -> bool {
    ||| text_before(a.asset_type@, b.asset_type@)
    ||| a.asset_type@ == b.asset_type@ && text_before(a.name@, b.name@)
    ||| a.asset_type@ == b.asset_type@ && a.name@ == b.name@ && match (a.value, b.value) {
        (None, Some(_)) => true,
        (Some(x), Some(y)) => text_before(x@, y@),
        _ => false,
    }
    ||| a.asset_type@ == b.asset_type@ && a.name@ == b.name@ && field_view(a.value) == field_view(b.value)
        && text_before(a.id@, b.id@)
}

/// NVT `a` is listed before `b`: by OID, then name.
pub open spec fn nvt_listed_before(a: NvtOrderFields, b: NvtOrderFields) -> bool {
    ||| text_before(a.oid@, b.oid@)
    ||| a.oid@ == b.oid@ && text_before(a.name@, b.name@)
}

/// Host `a` is listed before `b`: by name, then IP address (an absent
/// address first), then identifier.
pub open spec fn host_listed_before(a: Host, b: Host) -> bool {
    ||| text_before(a.meta.name@, b.meta.name@)
    ||| a.meta.name@ == b.meta.name@ && match (a.ip, b.ip) {
        (None, Some(_)) => true,
        (Some(x), Some(y)) => text_before(x@, y@),
        _ => false,
    }
    ||| a.meta.name@ == b.meta.name@ && field_view(a.ip) == field_view(b.ip) && text_before(a.meta.id@, b.meta.id@)
}

proof fn lemma_key_step(a: Seq<Option<Seq<char>>>, b: Seq<Option<Seq<char>>>)
    requires
        a.len() > 0,
        b.len() > 0,
    ensures
        key_before(a, b) == (field_before(a[0], b[0]) || (a[0] == b[0] && key_before(a.drop_first(), b.drop_first()))),
{
}

proof fn lemma_key_last(a: Seq<Option<Seq<char>>>, b: Seq<Option<Seq<char>>>)
    requires
        a.len() == 1,
        b.len() == 1,
    ensures
        key_before(a, b) == field_before(a[0], b[0]),
{
    lemma_key_step(a, b);
    assert(a.drop_first().len() == 0 && b.drop_first().len() == 0);
}

proof fn lemma_config_order(a: ConfigOrderFields, b: ConfigOrderFields)
    ensures
        key_before(config_order_key(a), config_order_key(b)) == config_listed_before(a, b),
{
    let ka = config_order_key(a);
    let kb = config_order_key(b);
    lemma_key_step(ka, kb);
    lemma_key_step(ka.drop_first(), kb.drop_first());
    lemma_key_last(ka.drop_first().drop_first(), kb.drop_first().drop_first());
    assert(ka.drop_first() =~= seq![Some(a.name@), Some(a.id@)]);
    assert(kb.drop_first() =~= seq![Some(b.name@), Some(b.id@)]);
    assert(ka.drop_first().drop_first() =~= seq![Some(a.id@)]);
    assert(kb.drop_first().drop_first() =~= seq![Some(b.id@)]);
}

proof fn lemma_asset_order(a: AssetOrderFields, b: AssetOrderFields)
    ensures
        key_before(asset_order_key(a), asset_order_key(b)) == asset_listed_before(a, b),
{
    let ka = asset_order_key(a);
    let kb = asset_order_key(b);
    lemma_key_step(ka, kb);
    lemma_key_step(ka.drop_first(), kb.drop_first());
    lemma_key_step(ka.drop_first().drop_first(), kb.drop_first().drop_first());
    lemma_key_last(ka.drop_first().drop_first().drop_first(), kb.drop_first().drop_first().drop_first());
    assert(ka.drop_first() =~= seq![Some(a.name@), field_view(a.value), Some(a.id@)]);
    assert(kb.drop_first() =~= seq![Some(b.name@), field_view(b.value), Some(b.id@)]);
    assert(ka.drop_first().drop_first() =~= seq![field_view(a.value), Some(a.id@)]);
    assert(kb.drop_first().drop_first() =~= seq![field_view(b.value), Some(b.id@)]);
    assert(ka.drop_first().drop_first().drop_first() =~= seq![Some(a.id@)]);
    assert(kb.drop_first().drop_first().drop_first() =~= seq![Some(b.id@)]);
}

proof fn lemma_nvt_order(a: NvtOrderFields, b: NvtOrderFields)
    ensures
        key_before(nvt_order_key(a), nvt_order_key(b)) == nvt_listed_before(a, b),
{
    let ka = nvt_order_key(a);
    let kb = nvt_order_key(b);
    lemma_key_step(ka, kb);
    lemma_key_last(ka.drop_first(), kb.drop_first());
    assert(ka.drop_first() =~= seq![Some(a.name@)]);
    assert(kb.drop_first() =~= seq![Some(b.name@)]);
}

proof fn lemma_host_order(a: Host, b: Host)
    ensures
        key_before(host_order_key(a), host_order_key(b)) == host_listed_before(a, b),
{
    let ka = host_order_key(a);
    let kb = host_order_key(b);
    lemma_key_step(ka, kb);
    lemma_key_step(ka.drop_first(), kb.drop_first());
    lemma_key_last(ka.drop_first().drop_first(), kb.drop_first().drop_first());
    assert(ka.drop_first() =~= seq![field_view(a.ip), Some(a.meta.id@)]);
    assert(kb.drop_first() =~= seq![field_view(b.ip), Some(b.meta.id@)]);
    assert(ka.drop_first().drop_first() =~= seq![Some(a.meta.id@)]);
    assert(kb.drop_first().drop_first() =~= seq![Some(b.meta.id@)]);
}

/// The page of a scan config list: gvmd's answer in usage type, name and
/// identifier order (entries with equal keys as gvmd returned them), with
/// the total that gvmd reported.
pub fn config_page<T>(
    items: Vec<(ConfigOrderFields, T)>,
    filtered: Option<u32>,
    total: Option<u32>,
    page: u32,
    per_page: u32,
) -> (result: Page<T>)
    requires
        gvmd_total_spec(filtered, total, items@.len() as usize) == 0 || per_page > 0,
    ensures
        exists|p: Seq<int>| ordered_by(result.data@, config_keys(items@), entries_of(items@), p),
        exists|p: Seq<int>|
            #![trigger is_permutation(p, items@.len() as int)]
            is_permutation(p, items@.len() as int) && result.data@.len() == items@.len() && (forall|i: int|
                0 <= i < items@.len() ==> #[trigger] result.data@[i] == items@[p[i]].1) && (forall|i: int, j: int|
                #![trigger p[i], p[j]]
                0 <= i < j < items@.len() ==> !config_listed_before(items@[p[j]].0, items@[p[i]].0)),
        result.pagination == pagination_for(gvmd_total_spec(filtered, total, items@.len() as usize), page, per_page),
{
    let ghost orig = items@;
    let result = ordered_page(config_entries(items), filtered, total, page, per_page);
    proof {
        let p = choose|p: Seq<int>| ordered_by(result.data@, config_keys(orig), entries_of(orig), p);
        assert forall|i: int, j: int| #![trigger p[i], p[j]] 0 <= i < j < orig.len() implies !config_listed_before(
            orig[p[j]].0,
            orig[p[i]].0,
        ) by {
            lemma_config_order(orig[p[j]].0, orig[p[i]].0);
        }
        assert forall|i: int| 0 <= i < orig.len() implies #[trigger] result.data@[i] == orig[p[i]].1 by {}
        assert(is_permutation(p, orig.len() as int));
    }
    result
}

/// The page of an asset list: gvmd's answer in type, name, value and
/// identifier order, with the total that gvmd reported.
pub fn asset_page<T>(
    items: Vec<(AssetOrderFields, T)>,
    filtered: Option<u32>,
    total: Option<u32>,
    page: u32,
    per_page: u32,
) -> (result: Page<T>)
    requires
        gvmd_total_spec(filtered, total, items@.len() as usize) == 0 || per_page > 0,
    ensures
        exists|p: Seq<int>| ordered_by(result.data@, asset_keys(items@), entries_of(items@), p),
        exists|p: Seq<int>|
            #![trigger is_permutation(p, items@.len() as int)]
            is_permutation(p, items@.len() as int) && result.data@.len() == items@.len() && (forall|i: int|
                0 <= i < items@.len() ==> #[trigger] result.data@[i] == items@[p[i]].1) && (forall|i: int, j: int|
                #![trigger p[i], p[j]]
                0 <= i < j < items@.len() ==> !asset_listed_before(items@[p[j]].0, items@[p[i]].0)),
        result.pagination == pagination_for(gvmd_total_spec(filtered, total, items@.len() as usize), page, per_page),
{
    let ghost orig = items@;
    let result = ordered_page(asset_entries(items), filtered, total, page, per_page);
    proof {
        let p = choose|p: Seq<int>| ordered_by(result.data@, asset_keys(orig), entries_of(orig), p);
        assert forall|i: int, j: int| #![trigger p[i], p[j]] 0 <= i < j < orig.len() implies !asset_listed_before(
            orig[p[j]].0,
            orig[p[i]].0,
        ) by {
            lemma_asset_order(orig[p[j]].0, orig[p[i]].0);
        }
        assert forall|i: int| 0 <= i < orig.len() implies #[trigger] result.data@[i] == orig[p[i]].1 by {}
        assert(is_permutation(p, orig.len() as int));
    }
    result
}

/// The page of a host list: gvmd's answer in name, IP address and
/// identifier order, with the total that gvmd reported.
pub fn host_page(
    items: Vec<Host>,
    filtered: Option<u32>,
    total: Option<u32>,
    page: u32,
    per_page: u32,
) -> (result: Page<Host>)
    requires
        gvmd_total_spec(filtered, total, items@.len() as usize) == 0 || per_page > 0,
    ensures
        exists|p: Seq<int>| ordered_by(result.data@, host_keys(items@), items@, p),
        forall|i: int, j: int|
            0 <= i < j < result.data@.len() ==> !host_listed_before(#[trigger] result.data@[j], #[trigger] result.data@[i]),
        result.pagination == pagination_for(gvmd_total_spec(filtered, total, items@.len() as usize), page, per_page),
{
    let ghost orig = items@;
    let result = ordered_page(host_entries(items), filtered, total, page, per_page);
    proof {
        let p = choose|p: Seq<int>| ordered_by(result.data@, host_keys(orig), orig, p);
        assert forall|i: int, j: int| 0 <= i < j < result.data@.len() implies !host_listed_before(
            #[trigger] result.data@[j],
            #[trigger] result.data@[i],
        ) by {
            assert(result.data@[i] == orig[p[i]]);
            assert(result.data@[j] == orig[p[j]]);
            assert(!key_before(host_keys(orig)[p[j]], host_keys(orig)[p[i]]));
            lemma_host_order(result.data@[j], result.data@[i]);
        }
    }
    result
}

/// NVTs in OID, then name order (entries with equal keys as gvmd returned
/// them); an NVT list orders gvmd's paginated answer this way before
/// judging it, and the unpaginated result set before cutting a page out.
pub fn nvts_in_order<T>(items: Vec<(NvtOrderFields, T)>) -> (out: Vec<T>)
    ensures
        exists|p: Seq<int>| ordered_by(out@, nvt_keys(items@), entries_of(items@), p),
        exists|p: Seq<int>|
            #![trigger is_permutation(p, items@.len() as int)]
            is_permutation(p, items@.len() as int) && out@.len() == items@.len() && (forall|i: int|
                0 <= i < items@.len() ==> #[trigger] out@[i] == items@[p[i]].1) && (forall|i: int, j: int|
                #![trigger p[i], p[j]]
                0 <= i < j < items@.len() ==> !nvt_listed_before(items@[p[j]].0, items@[p[i]].0)),
{
    let ghost orig = items@;
    let out = entries_in_order(nvt_entries(items));
    proof {
        let p = choose|p: Seq<int>| ordered_by(out@, nvt_keys(orig), entries_of(orig), p);
        assert forall|i: int, j: int| #![trigger p[i], p[j]] 0 <= i < j < orig.len() implies !nvt_listed_before(
            orig[p[j]].0,
            orig[p[i]].0,
        ) by {
            lemma_nvt_order(orig[p[j]].0, orig[p[i]].0);
        }
        assert forall|i: int| 0 <= i < orig.len() implies #[trigger] out@[i] == orig[p[i]].1 by {}
        assert(is_permutation(p, orig.len() as int));
    }
    out
}

} // verus!
