//! Stable sorting of list entries by a tuple of text fields, in the order
//! that `Ord` gives `Option<String>`: an absent field first, then texts
//! in lexicographic order of their characters (the byte order of UTF-8).

use vstd::prelude::*;

verus! {

/// Strict lexicographic order on texts, by character code.
pub open spec fn text_before(a: Seq<char>, b: Seq<char>) -> bool
    decreases a.len(),
{
    if b.len() == 0 {
        false
    } else if a.len() == 0 {
        true
    } else if (a[0] as u32) < (b[0] as u32) {
        true
    } else if a[0] == b[0] {
        text_before(a.drop_first(), b.drop_first())
    } else {
        false
    }
}

/// Strict order on optional texts: absent first.
pub open spec fn field_before(a: Option<Seq<char>>, b: Option<Seq<char>>) -> bool {
    match (a, b) {
        (None, Some(_)) => true,
        (Some(x), Some(y)) => text_before(x, y),
        _ => false,
    }
}

/// Strict lexicographic order on tuples of optional texts.
pub open spec fn key_before(a: Seq<Option<Seq<char>>>, b: Seq<Option<Seq<char>>>) -> bool
    decreases a.len(),
{
    if b.len() == 0 {
        false
    } else if a.len() == 0 {
        true
    } else if field_before(a[0], b[0]) {
        true
    } else if a[0] == b[0] {
        key_before(a.drop_first(), b.drop_first())
    } else {
        false
    }
}

/// The text view of an optional string.
pub open spec fn field_view(f: Option<String>) -> Option<Seq<char>> {
    match f {
        None => None,
        Some(s) => Some(s@),
    }
}

/// The text view of a sort key.
pub open spec fn key_view(k: Vec<Option<String>>) -> Seq<Option<Seq<char>>> {
    k@.map_values(|f: Option<String>| field_view(f))
}

proof fn lemma_char_code(x: char, y: char)
    ensures
        (x as u32 == y as u32) == (x == y),
{
}

proof fn lemma_text_irreflexive(a: Seq<char>)
    ensures
        !text_before(a, a),
    decreases a.len(),
{
    if a.len() > 0 {
        lemma_text_irreflexive(a.drop_first());
    }
}

/// Distinct texts are ordered one way or the other, never both.
pub proof fn lemma_text_total(a: Seq<char>, b: Seq<char>)
    ensures
        a != b ==> (text_before(a, b) || text_before(b, a)),
        !(text_before(a, b) && text_before(b, a)),
    decreases a.len(),
{
    if a.len() > 0 && b.len() > 0 {
        lemma_char_code(a[0], b[0]);
        if a[0] == b[0] {
            lemma_text_total(a.drop_first(), b.drop_first());
            if a != b {
                assert(a.drop_first() != b.drop_first()) by {
                    if a.drop_first() == b.drop_first() {
                        assert(a =~= seq![a[0]] + a.drop_first());
                        assert(b =~= seq![b[0]] + b.drop_first());
                    }
                }
            }
        }
    }
    if a.len() == 0 && b.len() == 0 {
        assert(a =~= b);
    }
}

proof fn lemma_text_transitive(a: Seq<char>, b: Seq<char>, c: Seq<char>)
    ensures
        text_before(a, b) && text_before(b, c) ==> text_before(a, c),
    decreases a.len(),
{
    if a.len() > 0 && b.len() > 0 && c.len() > 0 {
        lemma_char_code(a[0], b[0]);
        lemma_char_code(b[0], c[0]);
        lemma_char_code(a[0], c[0]);
        if a[0] == b[0] && b[0] == c[0] {
            lemma_text_transitive(a.drop_first(), b.drop_first(), c.drop_first());
        }
    }
}

proof fn lemma_field_order(a: Option<Seq<char>>, b: Option<Seq<char>>, c: Option<Seq<char>>)
    ensures
        !field_before(a, a),
        a != b ==> (field_before(a, b) || field_before(b, a)),
        !(field_before(a, b) && field_before(b, a)),
        field_before(a, b) && field_before(b, c) ==> field_before(a, c),
{
    let x = match a { Some(s) => s, None => Seq::empty() };
    let y = match b { Some(s) => s, None => Seq::empty() };
    let z = match c { Some(s) => s, None => Seq::empty() };
    lemma_text_irreflexive(x);
    lemma_text_total(x, y);
    lemma_text_transitive(x, y, z);
}

proof fn lemma_key_irreflexive(a: Seq<Option<Seq<char>>>)
    ensures
        !key_before(a, a),
    decreases a.len(),
{
    if a.len() > 0 {
        lemma_field_order(a[0], a[0], a[0]);
        lemma_key_irreflexive(a.drop_first());
    }
}

proof fn lemma_key_total(a: Seq<Option<Seq<char>>>, b: Seq<Option<Seq<char>>>)
    ensures
        a != b ==> (key_before(a, b) || key_before(b, a)),
        !(key_before(a, b) && key_before(b, a)),
    decreases a.len(),
{
    if a.len() > 0 && b.len() > 0 {
        lemma_field_order(a[0], b[0], b[0]);
        if a[0] == b[0] {
            lemma_key_total(a.drop_first(), b.drop_first());
            if a != b {
                assert(a.drop_first() != b.drop_first()) by {
                    if a.drop_first() == b.drop_first() {
                        assert(a =~= seq![a[0]] + a.drop_first());
                        assert(b =~= seq![b[0]] + b.drop_first());
                    }
                }
            }
        }
    }
    if a.len() == 0 && b.len() == 0 {
        assert(a =~= b);
    }
}

proof fn lemma_key_transitive(a: Seq<Option<Seq<char>>>, b: Seq<Option<Seq<char>>>, c: Seq<Option<Seq<char>>>)
    ensures
        key_before(a, b) && key_before(b, c) ==> key_before(a, c),
    decreases a.len(),
{
    if a.len() > 0 && b.len() > 0 && c.len() > 0 {
        lemma_field_order(a[0], b[0], c[0]);
        if a[0] == b[0] && b[0] == c[0] {
            lemma_key_transitive(a.drop_first(), b.drop_first(), c.drop_first());
        }
    }
}

/// `key_before` is a strict total order.
pub proof fn lemma_key_order(a: Seq<Option<Seq<char>>>, b: Seq<Option<Seq<char>>>, c: Seq<Option<Seq<char>>>)
    ensures
        !key_before(a, a),
        a != b ==> (key_before(a, b) || key_before(b, a)),
        !(key_before(a, b) && key_before(b, a)),
        key_before(a, b) && key_before(b, c) ==> key_before(a, c),
{
    lemma_key_irreflexive(a);
    lemma_key_total(a, b);
    lemma_key_transitive(a, b, c);
}

/// Whether text `a` comes strictly before text `b`.
pub fn text_less(a: &str, b: &str) -> (less: bool)
    ensures
        less == text_before(a@, b@),
{
    let n = a.unicode_len();
    let m = b.unicode_len();
    let mut i: usize = 0;
    proof {
        assert(a@.subrange(0, n as int) =~= a@);
        assert(b@.subrange(0, m as int) =~= b@);
    }
    while i < n && i < m
        invariant
            n == a@.len(),
            m == b@.len(),
            i <= n,
            i <= m,
            text_before(a@, b@) == text_before(a@.subrange(i as int, n as int), b@.subrange(i as int, m as int)),
        decreases n - i,
    {
        let x = a.get_char(i);
        let y = b.get_char(i);
        if (x as u32) < (y as u32) {
            return true;
        }
        if x != y {
            return false;
        }
        proof {
            let sa = a@.subrange(i as int, n as int);
            let sb = b@.subrange(i as int, m as int);
            assert(sa.drop_first() =~= a@.subrange(i + 1, n as int));
            assert(sb.drop_first() =~= b@.subrange(i + 1, m as int));
        }
        i = i + 1;
    }
    proof {
        assert(a@.subrange(i as int, n as int).len() == n - i);
        assert(b@.subrange(i as int, m as int).len() == m - i);
    }
    i == n && i < m
}

fn field_less(a: &Option<String>, b: &Option<String>) -> (less: bool)
    ensures
        less == field_before(field_view(*a), field_view(*b)),
{
    match (a, b) {
        (None, Some(_)) => true,
        (Some(x), Some(y)) => text_less(x.as_str(), y.as_str()),
        _ => false,
    }
}

fn field_equal(a: &Option<String>, b: &Option<String>) -> (same: bool)
    ensures
        same == (field_view(*a) == field_view(*b)),
{
    match (a, b) {
        (None, None) => true,
        (Some(x), Some(y)) => {
            let r = !text_less(x.as_str(), y.as_str()) && !text_less(y.as_str(), x.as_str());
            proof {
                lemma_text_total(x@, y@);
                lemma_text_irreflexive(x@);
            }
            r
        },
        _ => false,
    }
}

/// Whether key `a` comes strictly before key `b`.
pub fn key_less(a: &Vec<Option<String>>, b: &Vec<Option<String>>) -> (less: bool)
    ensures
        less == key_before(key_view(*a), key_view(*b)),
{
    let n = a.len();
    let m = b.len();
    let ghost ka = key_view(*a);
    let ghost kb = key_view(*b);
    let mut i: usize = 0;
    proof {
        assert(ka.subrange(0, n as int) =~= ka);
        assert(kb.subrange(0, m as int) =~= kb);
    }
    while i < n && i < m
        invariant
            n == a@.len(),
            m == b@.len(),
            ka == key_view(*a),
            kb == key_view(*b),
            i <= n,
            i <= m,
            key_before(ka, kb) == key_before(ka.subrange(i as int, n as int), kb.subrange(i as int, m as int)),
        decreases n - i,
    {
        let ghost sa = ka.subrange(i as int, n as int);
        let ghost sb = kb.subrange(i as int, m as int);
        proof {
            assert(sa[0] == field_view(a@[i as int]));
            assert(sb[0] == field_view(b@[i as int]));
        }
        if field_less(&a[i], &b[i]) {
            return true;
        }
        if !field_equal(&a[i], &b[i]) {
            return false;
        }
        proof {
            assert(sa.drop_first() =~= ka.subrange(i + 1, n as int));
            assert(sb.drop_first() =~= kb.subrange(i + 1, m as int));
        }
        i = i + 1;
    }
    proof {
        assert(ka.subrange(i as int, n as int).len() == n - i);
        assert(kb.subrange(i as int, m as int).len() == m - i);
    }
    i == n && i < m
}

/// Whether `p` is a permutation of `0..n`.
pub open spec fn is_permutation(p: Seq<int>, n: int) -> bool {
    &&& p.len() == n
    &&& forall|i: int| 0 <= i < n ==> 0 <= #[trigger] p[i] < n
    &&& forall|i: int, j: int| 0 <= i < j < n ==> p[i] != p[j]
}

/// Whether the entries are in key order.
pub open spec fn keys_in_order<T>(s: Seq<(Vec<Option<String>>, T)>) -> bool {
    forall|i: int, j: int| 0 <= i < j < s.len() ==> !key_before(key_view(#[trigger] s[j].0), key_view(#[trigger] s[i].0))
}

/// `sorted` is `items` stably sorted by key: reordered by the permutation
/// `p`, in key order, with entries of equal keys in the order they came in.
pub open spec fn stably_sorted_by<T>(sorted: Seq<(Vec<Option<String>>, T)>, items: Seq<(Vec<Option<String>>, T)>, p: Seq<int>) -> bool {
    &&& sorted.len() == items.len()
    &&& is_permutation(p, items.len() as int)
    &&& forall|i: int| 0 <= i < sorted.len() ==> #[trigger] sorted[i] == items[p[i]]
    &&& keys_in_order(sorted)
    &&& forall|i: int, j: int|
        0 <= i < j < sorted.len() && key_view(sorted[i].0) == key_view(sorted[j].0) ==> #[trigger] p[i] < #[trigger] p[j]
}

/// Sorts entries by key, keeping entries with equal keys in the
/// order they came in (what a stable `sort_by` on the keys does).
pub fn sort_by_keys<T>(items: Vec<(Vec<Option<String>>, T)>) -> (sorted: Vec<(Vec<Option<String>>, T)>)
    ensures
        exists|p: Seq<int>| stably_sorted_by(sorted@, items@, p),
{
    let ghost orig = items@;
    let n = items.len();
    let mut rest = items;
    let mut out: Vec<(Vec<Option<String>>, T)> = Vec::new();
    let ghost mut p: Seq<int> = Seq::empty();
    let mut k: usize = 0;
    while k < n
        invariant
            n == orig.len(),
            k <= n,
            rest@ == orig.subrange(k as int, n as int),
            out@.len() == k,
            p.len() == k,
            forall|i: int| 0 <= i < k ==> 0 <= #[trigger] p[i] < k,
            forall|i: int, j: int| 0 <= i < j < k ==> p[i] != p[j],
            forall|i: int| 0 <= i < k ==> #[trigger] out@[i] == orig[p[i]],
            keys_in_order(out@),
            forall|i: int, j: int|
                0 <= i < j < k && key_view(out@[i].0) == key_view(out@[j].0) ==> #[trigger] p[i] < #[trigger] p[j],
        decreases n - k,
    {
        proof {
            assert(rest@[0] == orig[k as int]);
        }
        let entry = rest.remove(0);
        proof {
            assert(rest@ =~= orig.subrange(k + 1, n as int));
        }
        let ghost kx = key_view(entry.0);
        let mut q: usize = 0;
        while q < out.len() && !key_less(&entry.0, &out[q].0)
            invariant
                q <= out@.len(),
                kx == key_view(entry.0),
                forall|i: int| 0 <= i < q ==> !key_before(kx, key_view(#[trigger] out@[i].0)),
            decreases out@.len() - q,
        {
            q = q + 1;
        }
        let ghost old_out = out@;
        proof {
            // Every entry from q on comes after the new one.
            assert forall|i: int| q <= i < old_out.len() implies key_before(kx, key_view(#[trigger] old_out[i].0)) by {
                if q < old_out.len() {
                    assert(key_before(kx, key_view(old_out[q as int].0)));
                    if i > q {
                        lemma_key_order(kx, key_view(old_out[q as int].0), key_view(old_out[i].0));
                        lemma_key_order(key_view(old_out[q as int].0), key_view(old_out[i].0), kx);
                        lemma_key_order(key_view(old_out[i].0), key_view(old_out[q as int].0), kx);
                    }
                }
            }
        }
        out.insert(q, entry);
        proof {
            let old_p = p;
            p = old_p.insert(q as int, k as int);
            assert forall|i: int| 0 <= i < k + 1 implies 0 <= #[trigger] p[i] < k + 1 by {
                if i < q {
                    assert(p[i] == old_p[i]);
                } else if i > q {
                    assert(p[i] == old_p[i - 1]);
                }
            }
            assert forall|i: int, j: int| 0 <= i < j < k + 1 implies p[i] != p[j] by {
                if i < q && j < q {
                    assert(p[i] == old_p[i] && p[j] == old_p[j]);
                } else if i < q && j > q {
                    assert(p[i] == old_p[i] && p[j] == old_p[j - 1]);
                } else if i > q && j > q {
                    assert(p[i] == old_p[i - 1] && p[j] == old_p[j - 1]);
                } else if i == q {
                    assert(p[j] == old_p[j - 1]);
                } else {
                    assert(p[i] == old_p[i]);
                }
            }
            assert forall|i: int| 0 <= i < k + 1 implies #[trigger] out@[i] == orig[p[i]] by {
                if i < q {
                    assert(out@[i] == old_out[i]);
                } else if i > q {
                    assert(out@[i] == old_out[i - 1]);
                }
            }
            assert forall|i: int, j: int| 0 <= i < j < out@.len() implies !key_before(
                key_view(#[trigger] out@[j].0),
                key_view(#[trigger] out@[i].0),
            ) by {
                let ki = key_view(out@[i].0);
                let kj = key_view(out@[j].0);
                if i < q && j < q {
                    assert(out@[i] == old_out[i] && out@[j] == old_out[j]);
                } else if i < q && j == q {
                    assert(out@[i] == old_out[i]);
                } else if i < q && j > q {
                    assert(out@[i] == old_out[i] && out@[j] == old_out[j - 1]);
                    lemma_key_order(kj, kx, ki);
                    lemma_key_order(ki, kx, kj);
                    lemma_key_order(kx, kj, ki);
                } else if i == q {
                    assert(out@[j] == old_out[j - 1]);
                    lemma_key_order(kx, kj, kx);
                } else {
                    assert(out@[i] == old_out[i - 1] && out@[j] == old_out[j - 1]);
                }
            }
            assert forall|i: int, j: int|
                0 <= i < j < k + 1 && key_view(out@[i].0) == key_view(out@[j].0) implies #[trigger] p[i] < #[trigger] p[j] by {
                if i < q && j < q {
                    assert(out@[i] == old_out[i] && out@[j] == old_out[j]);
                    assert(p[i] == old_p[i] && p[j] == old_p[j]);
                } else if i < q && j > q {
                    assert(out@[i] == old_out[i] && out@[j] == old_out[j - 1]);
                    assert(p[i] == old_p[i] && p[j] == old_p[j - 1]);
                    lemma_key_order(kx, kx, kx);
                } else if i > q && j > q {
                    assert(out@[i] == old_out[i - 1] && out@[j] == old_out[j - 1]);
                    assert(p[i] == old_p[i - 1] && p[j] == old_p[j - 1]);
                } else if i == q {
                    assert(out@[j] == old_out[j - 1]);
                    lemma_key_order(kx, kx, kx);
                } else {
                    assert(p[i] == old_p[i]);
                }
            }
        }
        k = k + 1;
    }
    proof {
        assert(stably_sorted_by(out@, orig, p));
    }
    out
}

proof fn lemma_increasing_permutation_is_identity(p: Seq<int>, n: int)
    requires
        is_permutation(p, n),
        forall|i: int, j: int| 0 <= i < j < n ==> #[trigger] p[i] < #[trigger] p[j],
    ensures
        forall|i: int| 0 <= i < n ==> #[trigger] p[i] == i,
{
    assert forall|i: int| 0 <= i < n implies #[trigger] p[i] >= i by {
        lemma_increasing_at_least(p, n, i);
    }
    assert forall|i: int| 0 <= i < n implies #[trigger] p[i] <= i by {
        lemma_increasing_at_most(p, n, i);
    }
}

proof fn lemma_increasing_at_least(p: Seq<int>, n: int, i: int)
    requires
        is_permutation(p, n),
        forall|a: int, b: int| 0 <= a < b < n ==> #[trigger] p[a] < #[trigger] p[b],
        0 <= i < n,
    ensures
        p[i] >= i,
    decreases i,
{
    if i > 0 {
        lemma_increasing_at_least(p, n, i - 1);
        assert(p[i - 1] < p[i]);
    }
}

proof fn lemma_increasing_at_most(p: Seq<int>, n: int, i: int)
    requires
        is_permutation(p, n),
        forall|a: int, b: int| 0 <= a < b < n ==> #[trigger] p[a] < #[trigger] p[b],
        0 <= i < n,
    ensures
        p[i] <= i,
    decreases n - i,
{
    if i < n - 1 {
        lemma_increasing_at_most(p, n, i + 1);
        assert(p[i] < p[i + 1]);
    }
}

/// Sorting entries that are already in key order changes nothing: the
/// only stable sort of a sorted sequence is the sequence itself.
pub proof fn sorting_sorted_entries_changes_nothing<T>(
    items: Seq<(Vec<Option<String>>, T)>,
    sorted: Seq<(Vec<Option<String>>, T)>,
    p: Seq<int>,
)
    requires
        keys_in_order(items),
        stably_sorted_by(sorted, items, p),
    ensures
        sorted == items,
{
    let n = items.len() as int;
    assert forall|i: int, j: int| 0 <= i < j < n implies #[trigger] p[i] < #[trigger] p[j] by {
        if p[i] > p[j] {
            let ki = key_view(items[p[i]].0);
            let kj = key_view(items[p[j]].0);
            assert(sorted[i] == items[p[i]]);
            assert(sorted[j] == items[p[j]]);
            // sorted order: kj is not before ki; source order: ki is not before kj
            assert(!key_before(key_view(sorted[j].0), key_view(sorted[i].0)));
            assert(!key_before(key_view(items[p[i]].0), key_view(items[p[j]].0)));
            lemma_key_order(ki, kj, ki);
            assert(ki == kj);
            assert(key_view(sorted[i].0) == key_view(sorted[j].0));
        }
    }
    lemma_increasing_permutation_is_identity(p, n);
    assert forall|i: int| 0 <= i < n implies #[trigger] sorted[i] == items[i] by {
        assert(sorted[i] == items[p[i]]);
    }
    assert(sorted =~= items);
}

/// `sorted` is `items` stably sorted by name: reordered by the
/// permutation `p`, in name order, with entries of equal names in the
/// order they came in.
pub open spec fn stably_sorted_by_name<T>(sorted: Seq<(String, T)>, items: Seq<(String, T)>, p: Seq<int>) -> bool {
    &&& sorted.len() == items.len()
    &&& is_permutation(p, items.len() as int)
    &&& forall|i: int| 0 <= i < sorted.len() ==> #[trigger] sorted[i] == items[p[i]]
    &&& forall|i: int, j: int| 0 <= i < j < sorted.len() ==> !text_before(#[trigger] sorted[j].0@, #[trigger] sorted[i].0@)
    &&& forall|i: int, j: int| 0 <= i < j < sorted.len() && sorted[i].0@ == sorted[j].0@ ==> #[trigger] p[i] < #[trigger] p[j]
}

/// The sort key of a name.
pub open spec fn name_key(name: Seq<char>) -> Seq<Option<Seq<char>>> {
    seq![Some(name)]
}

proof fn lemma_name_key_order(a: Seq<char>, b: Seq<char>)
    ensures
        key_before(name_key(a), name_key(b)) == text_before(a, b),
{
    lemma_text_irreflexive(a);
    let ka = name_key(a);
    let kb = name_key(b);
    assert(ka.drop_first() =~= Seq::<Option<Seq<char>>>::empty());
    assert(kb.drop_first() =~= Seq::<Option<Seq<char>>>::empty());
    assert(!key_before(ka.drop_first(), kb.drop_first()));
    assert(ka[0] == Some(a) && kb[0] == Some(b));
}

/// Sorts named entries by name, keeping entries with equal names in the
/// order they came in (what a stable `sort_by` on the names does).
pub fn sort_by_name<T>(items: Vec<(String, T)>) -> (sorted: Vec<(String, T)>)
    ensures
        exists|p: Seq<int>| stably_sorted_by_name(sorted@, items@, p),
{
    let ghost orig = items@;
    let n = items.len();
    let mut keyed: Vec<(Vec<Option<String>>, (String, T))> = Vec::new();
    let mut rest = items;
    let mut k: usize = 0;
    while k < n
        invariant
            n == orig.len(),
            k <= n,
            rest@ == orig.subrange(k as int, n as int),
            keyed@.len() == k,
            forall|i: int| 0 <= i < k ==> (#[trigger] keyed@[i]).1 == orig[i] && key_view(keyed@[i].0) == name_key(orig[i].0@),
        decreases n - k,
    {
        proof {
            assert(rest@[0] == orig[k as int]);
        }
        let entry = rest.remove(0);
        proof {
            assert(rest@ =~= orig.subrange(k + 1, n as int));
        }
        let mut key: Vec<Option<String>> = Vec::new();
        key.push(Some(entry.0.clone()));
        proof {
            assert(key_view(key) =~= name_key(entry.0@));
        }
        keyed.push((key, entry));
        k = k + 1;
    }
    let ghost keyed_view = keyed@;
    let sorted_keyed = sort_by_keys(keyed);
    let ghost sorted_view = sorted_keyed@;
    let mut out: Vec<(String, T)> = Vec::new();
    let mut rest = sorted_keyed;
    let mut j: usize = 0;
    while j < n
        invariant
            n == sorted_view.len(),
            j <= n,
            rest@ == sorted_view.subrange(j as int, n as int),
            out@.len() == j,
            forall|i: int| 0 <= i < j ==> #[trigger] out@[i] == sorted_view[i].1,
        decreases n - j,
    {
        proof {
            assert(rest@[0] == sorted_view[j as int]);
        }
        let (_, entry) = rest.remove(0);
        proof {
            assert(rest@ =~= sorted_view.subrange(j + 1, n as int));
        }
        out.push(entry);
        j = j + 1;
    }
    proof {
        let p = choose|p: Seq<int>| stably_sorted_by(sorted_view, keyed_view, p);
        assert forall|i: int| 0 <= i < out@.len() implies #[trigger] out@[i] == orig[p[i]] by {
            assert(sorted_view[i] == keyed_view[p[i]]);
        }
        assert forall|a: int, b: int| 0 <= a < b < out@.len() implies !text_before(
            #[trigger] out@[b].0@,
            #[trigger] out@[a].0@,
        ) by {
            assert(sorted_view[a] == keyed_view[p[a]]);
            assert(sorted_view[b] == keyed_view[p[b]]);
            lemma_name_key_order(out@[b].0@, out@[a].0@);
        }
        assert forall|a: int, b: int| 0 <= a < b < out@.len() && out@[a].0@ == out@[b].0@ implies #[trigger] p[a] < #[trigger] p[b] by {
            assert(sorted_view[a] == keyed_view[p[a]]);
            assert(sorted_view[b] == keyed_view[p[b]]);
        }
        assert(stably_sorted_by_name(out@, orig, p));
    }
    out
}

} // verus!
