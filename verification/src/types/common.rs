//! Shared API envelopes, and the key-value entries by which the library
//! holds JSON objects with string keys.

use vstd::prelude::*;

verus! {

/// A page of a list of objects.
#[derive(Debug, Clone)]
pub struct List<T> {
    pub object: String,
    pub data: Vec<T>,
    pub first_id: Option<String>,
    pub last_id: Option<String>,
    pub has_more: Option<bool>,
}

/// The answer to a deletion.
#[derive(Debug, Clone)]
pub struct Deleted {
    pub id: String,
    pub object: String,
    pub deleted: bool,
}

/// A value that is one string or a list.
#[derive(Debug, Clone)]
pub enum StringOrVec<T> {
    String(String),
    Vec(Vec<T>),
}

/// The JSON object that a list of key-value entries stands for: each key
/// maps to the value of its last entry, so that a later entry for a key
/// replaces an earlier one, as an insertion into a map does.
pub open spec fn entries_map<V>(entries: Seq<(String, V)>) -> Map<Seq<char>, V>
    decreases entries.len(),
{
    if entries.len() == 0 {
        Map::empty()
    } else {
        entries_map(entries.drop_last()).insert(entries.last().0@, entries.last().1)
    }
}

/// The entries of an optional list of entries (none: no entries).
pub open spec fn opt_entries<V>(o: Option<Vec<(String, V)>>) -> Seq<(String, V)> {
    match o {
        Some(v) => v@,
        None => Seq::empty(),
    }
}

/// The elements of an optional list (none: no elements).
pub open spec fn opt_seq<T>(o: Option<Vec<T>>) -> Seq<T> {
    match o {
        Some(v) => v@,
        None => Seq::empty(),
    }
}

/// Appends `value` to the list in `list`, starting the list where there is
/// none.
pub fn push_to_optional<T>(list: Option<Vec<T>>, value: T) -> (r: Option<Vec<T>>)
    ensures
        r matches Some(v) && v@ == opt_seq(list).push(value),
{
    let mut v = match list {
        Some(v) => v,
        None => Vec::new(),
    };
    v.push(value);
    Some(v)
}

/// `a` comes before `b` in the order of `String`: lexicographic over the
/// characters' code points, which is the byte order of their UTF-8 forms.
pub open spec fn key_lt(a: Seq<char>, b: Seq<char>) -> bool
    decreases a.len(),
{
    if a.len() == 0 {
        b.len() > 0
    } else if b.len() == 0 {
        false
    } else if a[0] == b[0] {
        key_lt(a.drop_first(), b.drop_first())
    } else {
        (a[0] as u32) < (b[0] as u32)
    }
}

/// The keys of `e` strictly increase, so that no key occurs twice and the
/// entries stand in the order in which a `BTreeMap` holds them.
pub open spec fn entries_sorted<V>(e: Seq<(String, V)>) -> bool {
    forall|i: int, j: int| 0 <= i < j < e.len() ==> key_lt(#[trigger] e[i].0@, #[trigger] e[j].0@)
}

/// The entries of `e` whose key is not `k`, in their order.
pub open spec fn without_key<V>(e: Seq<(String, V)>, k: Seq<char>) -> Seq<(String, V)>
    decreases e.len(),
{
    if e.len() == 0 {
        e
    } else {
        let w = without_key(e.drop_last(), k);
        if e.last().0@ == k {
            w
        } else {
            w.push(e.last())
        }
    }
}

/// How many entries at the front of `e` have keys before `k`.
pub open spec fn leading_below<V>(e: Seq<(String, V)>, k: Seq<char>) -> nat
    decreases e.len(),
{
    if e.len() > 0 && key_lt(e[0].0@, k) {
        1 + leading_below(e.drop_first(), k)
    } else {
        0
    }
}

/// Where the entry for `k` goes once the other entries for `k` are gone.
pub open spec fn entry_index<V>(e: Seq<(String, V)>, k: Seq<char>) -> int {
    leading_below(without_key(e, k), k) as int
}

/// `new` is `old` with every entry for `k` taken out and one entry for `k`
/// put in before the first remaining entry whose key is not before `k`.
pub open spec fn is_entry_insert<V>(old: Seq<(String, V)>, new: Seq<(String, V)>, k: Seq<char>) -> bool {
    let kept = without_key(old, k);
    let p = entry_index(old, k);
    &&& new.len() == kept.len() + 1
    &&& new[p].0@ == k
    &&& new == kept.insert(p, new[p])
}

proof fn lemma_key_lt_irreflexive(a: Seq<char>)
    ensures
        !key_lt(a, a),
    decreases a.len(),
{
    if a.len() > 0 {
        lemma_key_lt_irreflexive(a.drop_first());
    }
}

proof fn lemma_key_lt_total(a: Seq<char>, b: Seq<char>)
    ensures
        a != b ==> key_lt(a, b) || key_lt(b, a),
    decreases a.len(),
{
    if a.len() > 0 && b.len() > 0 && a[0] == b[0] {
        lemma_key_lt_total(a.drop_first(), b.drop_first());
        if a.drop_first() == b.drop_first() {
            assert forall|i: int| 0 <= i < a.len() implies a[i] == b[i] by {
                if i > 0 {
                    assert(a[i] == a.drop_first()[i - 1]);
                    assert(b[i] == b.drop_first()[i - 1]);
                }
            }
            assert(a =~= b);
        }
    } else if a.len() == 0 && b.len() == 0 {
        assert(a =~= b);
    } else if a.len() > 0 && b.len() > 0 {
        vstd::utf8::char_u32_cast(a[0], a[0] as u32);
        vstd::utf8::char_u32_cast(b[0], b[0] as u32);
    }
}

proof fn lemma_key_lt_transitive(a: Seq<char>, b: Seq<char>, c: Seq<char>)
    requires
        key_lt(a, b),
        key_lt(b, c),
    ensures
        key_lt(a, c),
    decreases a.len(),
{
    if a.len() > 0 && b.len() > 0 && c.len() > 0 && a[0] == b[0] && b[0] == c[0] {
        lemma_key_lt_transitive(a.drop_first(), b.drop_first(), c.drop_first());
    }
}

proof fn lemma_without_key<V>(e: Seq<(String, V)>, k: Seq<char>)
    ensures
        forall|i: int| 0 <= i < without_key(e, k).len() ==> (#[trigger] without_key(e, k)[i]).0@ != k
            && e.contains(without_key(e, k)[i]),
        entries_map(without_key(e, k)) == entries_map(e).remove(k),
        entries_sorted(e) ==> entries_sorted(without_key(e, k)),
    decreases e.len(),
{
    if e.len() > 0 {
        let d = e.drop_last();
        let x = e.last();
        let w = without_key(d, k);
        lemma_without_key(d, k);
        assert forall|i: int| 0 <= i < w.len() implies e.contains(#[trigger] w[i]) by {
            let j = choose|j: int| 0 <= j < d.len() && d[j] == w[i];
            assert(e[j] == d[j]);
        }
        if x.0@ == k {
            assert(entries_map(e).remove(k) =~= entries_map(d).remove(k));
        } else {
            assert(w.push(x).drop_last() =~= w);
            assert(entries_map(w.push(x)) =~= entries_map(e).remove(k));
            assert(e.contains(x)) by {
                assert(e[e.len() - 1] == x);
            }
            if entries_sorted(e) {
                assert(entries_sorted(d));
                assert forall|i: int, j: int| 0 <= i < j < w.push(x).len() implies key_lt(
                    #[trigger] w.push(x)[i].0@,
                    #[trigger] w.push(x)[j].0@,
                ) by {
                    if j == w.len() {
                        let m = choose|m: int| 0 <= m < d.len() && d[m] == w[i];
                        assert(e[m] == d[m]);
                        assert(key_lt(e[m].0@, e[e.len() - 1].0@));
                    }
                }
            }
        }
    }
}

proof fn lemma_leading_below<V>(e: Seq<(String, V)>, k: Seq<char>)
    ensures
        leading_below(e, k) <= e.len(),
        forall|i: int| 0 <= i < leading_below(e, k) ==> key_lt(#[trigger] e[i].0@, k),
        leading_below(e, k) < e.len() ==> !key_lt(e[leading_below(e, k) as int].0@, k),
    decreases e.len(),
{
    if e.len() > 0 && key_lt(e[0].0@, k) {
        lemma_leading_below(e.drop_first(), k);
        assert forall|i: int| 0 <= i < leading_below(e, k) implies key_lt(#[trigger] e[i].0@, k) by {
            if i > 0 {
                assert(e[i] == e.drop_first()[i - 1]);
            }
        }
    }
}

proof fn lemma_insert_map<V>(a: Seq<(String, V)>, x: (String, V), b: Seq<(String, V)>)
    requires
        forall|i: int| 0 <= i < b.len() ==> (#[trigger] b[i]).0@ != x.0@,
    ensures
        entries_map(a.push(x) + b) == entries_map(a + b).insert(x.0@, x.1),
    decreases b.len(),
{
    if b.len() == 0 {
        assert(a.push(x) + b =~= a.push(x));
        assert(a + b =~= a);
        assert(a.push(x).drop_last() =~= a);
    } else {
        let bd = b.drop_last();
        let y = b.last();
        lemma_insert_map(a, x, bd);
        assert((a.push(x) + b).drop_last() =~= a.push(x) + bd);
        assert((a + b).drop_last() =~= a + bd);
        assert(y.0@ != x.0@);
        assert(entries_map(a.push(x) + b) =~= entries_map(a + b).insert(x.0@, x.1));
    }
}

proof fn lemma_sorted_insert<V>(kept: Seq<(String, V)>, x: (String, V))
    requires
        entries_sorted(kept),
        forall|i: int| 0 <= i < kept.len() ==> (#[trigger] kept[i]).0@ != x.0@,
    ensures
        entries_sorted(kept.insert(leading_below(kept, x.0@) as int, x)),
{
    let p = leading_below(kept, x.0@) as int;
    let n = kept.insert(p, x);
    lemma_leading_below(kept, x.0@);
    if p < kept.len() {
        lemma_key_lt_total(kept[p].0@, x.0@);
    }
    assert forall|i: int, j: int| 0 <= i < j < n.len() implies key_lt(
        #[trigger] n[i].0@,
        #[trigger] n[j].0@,
    ) by {
        if j < p {
        } else if j == p {
        } else if i < p {
            if j - 1 > p {
                lemma_key_lt_transitive(x.0@, kept[p].0@, kept[j - 1].0@);
            }
            lemma_key_lt_transitive(kept[i].0@, x.0@, kept[j - 1].0@);
        } else if i == p {
            if j - 1 > p {
                lemma_key_lt_transitive(x.0@, kept[p].0@, kept[j - 1].0@);
            }
        } else {
        }
    }
}

/// Sorted entries hold one entry per key.
pub proof fn lemma_sorted_keys_distinct<V>(e: Seq<(String, V)>)
    requires
        entries_sorted(e),
    ensures
        forall|i: int, j: int|
            0 <= i < e.len() && 0 <= j < e.len() && i != j ==> #[trigger] e[i].0@ != #[trigger] e[j].0@,
{
    assert forall|i: int, j: int| 0 <= i < e.len() && 0 <= j < e.len() && i != j implies #[trigger] e[i].0@
        != #[trigger] e[j].0@ by {
        if i < j {
            assert(key_lt(e[i].0@, e[j].0@));
            if e[i].0@ == e[j].0@ {
                lemma_key_lt_irreflexive(e[i].0@);
            }
        } else {
            assert(key_lt(e[j].0@, e[i].0@));
            if e[i].0@ == e[j].0@ {
                lemma_key_lt_irreflexive(e[i].0@);
            }
        }
    }
}

/// Tests whether `a` comes before `b` in the order of `String`.
pub fn key_less(a: &str, b: &str) -> (r: bool)
    ensures
        r == key_lt(a@, b@),
{
    let va = crate::text::chars_of(a);
    let vb = crate::text::chars_of(b);
    let mut i: usize = 0;
    proof {
        assert(va@.skip(0) =~= va@);
        assert(vb@.skip(0) =~= vb@);
    }
    while i < va.len() && i < vb.len() && va[i] == vb[i]
        invariant
            i <= va@.len(),
            i <= vb@.len(),
            key_lt(va@.skip(i as int), vb@.skip(i as int)) == key_lt(a@, b@),
            va@ == a@,
            vb@ == b@,
        decreases va@.len() - i,
    {
        assert(va@.skip(i as int).drop_first() =~= va@.skip(i + 1));
        assert(vb@.skip(i as int).drop_first() =~= vb@.skip(i + 1));
        i = i + 1;
    }
    if i == va.len() {
        i < vb.len()
    } else if i == vb.len() {
        false
    } else {
        (va[i] as u32) < (vb[i] as u32)
    }
}

/// Sets the entry for `key` to `value`, as an insertion into a map does:
/// every entry for `key` is taken out, and one entry for `key` is put in
/// before the first remaining entry whose key is not before `key`. In sorted
/// entries this replaces the entry for `key` where it stands, or adds it
/// where it belongs, so the entries stay sorted.
pub fn push_entry<V>(entries: Vec<(String, V)>, key: &str, value: V) -> (r: Vec<(String, V)>)
    ensures
        is_entry_insert(entries@, r@, key@),
        r@[entry_index(entries@, key@)].1 == value,
        entries_map(r@) == entries_map(entries@).insert(key@, value),
        entries_sorted(entries@) ==> entries_sorted(r@),
{
    let mut r = entries;
    let k = String::from_str(key);
    let ghost e0 = r@;
    let mut i: usize = 0;
    let ghost mut j: int = 0;
    proof {
        assert(r@.take(0) =~= without_key(e0.take(0), key@));
        assert(r@.skip(0) =~= e0.skip(0));
    }
    while i < r.len()
        invariant
            i <= r@.len(),
            0 <= j <= e0.len(),
            k@ == key@,
            r@.take(i as int) == without_key(e0.take(j), key@),
            r@.skip(i as int) == e0.skip(j),
        decreases r@.len() - i,
    {
        let ghost before = r@;
        proof {
            assert(before.skip(i as int)[0] == before[i as int]);
            assert(e0.skip(j).len() == before.len() - i);
            assert(j < e0.len());
            assert(e0.skip(j)[0] == e0[j]);
            assert(before[i as int] == e0[j]);
            assert(e0.take(j + 1).drop_last() =~= e0.take(j));
            assert(e0.take(j + 1).last() == e0[j]);
        }
        if r[i].0 == k {
            r.remove(i);
            proof {
                assert(r@.take(i as int) =~= before.take(i as int));
                assert(r@.skip(i as int) =~= before.skip(i + 1));
                assert(before.skip(i + 1) =~= e0.skip(j + 1)) by {
                    assert(before.skip(i + 1) =~= before.skip(i as int).drop_first());
                    assert(e0.skip(j + 1) =~= e0.skip(j).drop_first());
                }
                j = j + 1;
            }
        } else {
            proof {
                assert(r@.take(i + 1) =~= r@.take(i as int).push(r@[i as int]));
                assert(r@.skip(i + 1) =~= r@.skip(i as int).drop_first());
                assert(e0.skip(j + 1) =~= e0.skip(j).drop_first());
                j = j + 1;
            }
            i = i + 1;
        }
    }
    proof {
        assert(e0.skip(j).len() == 0);
        assert(e0.take(j) =~= e0);
        assert(r@.take(i as int) =~= r@);
        lemma_without_key(e0, key@);
    }
    let ghost kept = r@;
    let mut pos: usize = 0;
    proof {
        assert(kept.skip(0) =~= kept);
    }
    while pos < r.len() && key_less(r[pos].0.as_str(), key)
        invariant
            pos <= r@.len(),
            r@ == kept,
            leading_below(kept, key@) == pos + leading_below(kept.skip(pos as int), key@),
        decreases r@.len() - pos,
    {
        assert(kept.skip(pos as int)[0] == kept[pos as int]);
        assert(kept.skip(pos as int).drop_first() =~= kept.skip(pos + 1));
        pos = pos + 1;
    }
    proof {
        if pos < kept.len() {
            assert(kept.skip(pos as int)[0] == kept[pos as int]);
        }
    }
    let ghost x = (k, value);
    r.insert(pos, (k, value));
    proof {
        let p = pos as int;
        assert(r@ == kept.insert(p, x));
        assert(r@[p] == x);
        assert(kept.insert(p, x) =~= kept.take(p).push(x) + kept.skip(p));
        assert(kept.take(p) + kept.skip(p) =~= kept);
        assert forall|m: int| 0 <= m < kept.skip(p).len() implies (#[trigger] kept.skip(p)[m]).0@
            != x.0@ by {
            assert(kept.skip(p)[m] == kept[p + m]);
        }
        lemma_insert_map(kept.take(p), x, kept.skip(p));
        assert(entries_map(kept).insert(key@, value) =~= entries_map(e0).insert(key@, value));
        if entries_sorted(e0) {
            lemma_sorted_insert(kept, x);
        }
    }
    r
}

/// Sets the entry for `key` to `value` in the entries in `entries`,
/// starting them where there are none; see `push_entry`.
pub fn push_optional_entry<V>(entries: Option<Vec<(String, V)>>, key: &str, value: V) -> (r: Option<
    Vec<(String, V)>,
>)
    ensures
        r matches Some(v) && {
            &&& is_entry_insert(opt_entries(entries), v@, key@)
            &&& v@[entry_index(opt_entries(entries), key@)].1 == value
            &&& entries_map(v@) == entries_map(opt_entries(entries)).insert(key@, value)
            &&& entries_sorted(opt_entries(entries)) ==> entries_sorted(v@)
        },
{
    let e = match entries {
        Some(e) => e,
        None => Vec::new(),
    };
    Some(push_entry(e, key, value))
}

} // verus!
