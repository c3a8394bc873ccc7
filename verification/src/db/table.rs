//! Keyed rows of a table, looked up by primary key and listed in a fixed order.
use vstd::prelude::*;

verus! {

/// A table row with a text primary key and a listing order.
pub trait Row: Sized {
    /// The row's primary key.
    spec fn key(&self) -> Seq<char>;

    /// Whether `self` may be listed before `other` (a total preorder).
    spec fn precedes(&self, other: &Self) -> bool;

    fn key_ref(&self) -> (r: &String)
        ensures
            r@ == self.key(),
    ;

    fn precedes_exec(&self, other: &Self) -> (r: bool)
        ensures
            r == self.precedes(other),
    ;

    /// A field-by-field copy.
    fn duplicate(&self) -> (r: Self)
        ensures
            r == *self,
    ;

    proof fn lemma_precedes_total(a: Self, b: Self)
        ensures
            a.precedes(&b) || b.precedes(&a),
    ;

    proof fn lemma_precedes_trans(a: Self, b: Self, c: Self)
        requires
            a.precedes(&b),
            b.precedes(&c),
        ensures
            a.precedes(&c),
    ;
}

/// No two rows share a primary key.
pub open spec fn keys_unique<T: Row>(s: Seq<T>) -> bool {
    forall|i: int, j: int| 0 <= i < s.len() && 0 <= j < s.len() && i != j ==> #[trigger] s[i].key() != #[trigger] s[j].key()
}

/// Some row has primary key `k`.
pub open spec fn has_key<T: Row>(s: Seq<T>, k: Seq<char>) -> bool {
    exists|i: int| 0 <= i < s.len() && #[trigger] s[i].key() == k
}

/// The position of the row with primary key `k` (meaningful when `has_key`).
pub open spec fn key_index<T: Row>(s: Seq<T>, k: Seq<char>) -> int {
    choose|i: int| 0 <= i < s.len() && #[trigger] s[i].key() == k
}

/// The row with primary key `k`, if any.
pub open spec fn find_key<T: Row>(s: Seq<T>, k: Seq<char>) -> Option<T> {
    if has_key(s, k) {
        Some(s[key_index(s, k)])
    } else {
        None
    }
}

/// The rows are in listing order.
pub open spec fn sorted_rows<T: Row>(s: Seq<T>) -> bool {
    forall|i: int, j: int| 0 <= i < j < s.len() ==> #[trigger] s[i].precedes(&#[trigger] s[j])
}

/// `s` listed in order: a reordering of `s` that is sorted.
pub open spec fn is_listing<T: Row>(r: Seq<T>, s: Seq<T>) -> bool {
    &&& sorted_rows(r)
    &&& r.to_multiset() == s.to_multiset()
}

/// With unique keys, the row found at `i` is the one `find_key` names.
pub proof fn lemma_find_at<T: Row>(s: Seq<T>, i: int)
    requires
        keys_unique(s),
        0 <= i < s.len(),
    ensures
        has_key(s, s[i].key()),
        key_index(s, s[i].key()) == i,
        find_key(s, s[i].key()) == Some(s[i]),
{
    let k = s[i].key();
    assert(has_key(s, k));
    let j = key_index(s, k);
    assert(s[j].key() == k);
}

/// Position of the row with primary key `key`.
pub fn position<T: Row>(rows: &Vec<T>, key: &str) -> (r: Option<usize>)
    requires
        keys_unique(rows@),
    ensures
        r is Some <==> has_key(rows@, key@),
        r matches Some(k) ==> k < rows.len() && rows@[k as int].key() == key@ && key_index(rows@, key@) == k
            && find_key(rows@, key@) == Some(rows@[k as int]),
{
    let target = String::from_str(key);
    let mut i: usize = 0;
    while i < rows.len()
        invariant
            i <= rows.len(),
            target@ == key@,
            keys_unique(rows@),
            forall|j: int| 0 <= j < i ==> #[trigger] rows@[j].key() != key@,
        decreases rows.len() - i,
    {
        if *rows[i].key_ref() == target {
            proof { lemma_find_at(rows@, i as int); }
            return Some(i);
        }
        i = i + 1;
    }
    assert(!has_key(rows@, key@));
    None
}

/// After a row is deleted its key is found no more, every other key finds
/// what it found before, and keys stay unique.
pub proof fn law_remove_then_find<T: Row>(s: Seq<T>, i: int)
    requires
        keys_unique(s),
        0 <= i < s.len(),
    ensures
        keys_unique(s.remove(i)),
        !has_key(s.remove(i), s[i].key()),
        forall|k: Seq<char>| k != s[i].key() ==> (has_key(s.remove(i), k) == has_key(s, k)),
        forall|k: Seq<char>| k != s[i].key() ==> find_key(s.remove(i), k) == find_key(s, k),
{
    let r = s.remove(i);
    assert forall|a: int, b: int| 0 <= a < r.len() && 0 <= b < r.len() && a != b implies #[trigger] r[a].key() != #[trigger] r[b].key() by {
        let a2 = if a < i { a } else { a + 1 };
        let b2 = if b < i { b } else { b + 1 };
        assert(r[a] == s[a2]);
        assert(r[b] == s[b2]);
    }
    if has_key(r, s[i].key()) {
        let j = key_index(r, s[i].key());
        let j2 = if j < i { j } else { j + 1 };
        assert(r[j] == s[j2]);
    }
    assert forall|k: Seq<char>| k != s[i].key() implies (has_key(r, k) == has_key(s, k)) && find_key(r, k) == find_key(s, k) by {
        if has_key(s, k) {
            let j = key_index(s, k);
            assert(j != i);
            let j2 = if j < i { j } else { j - 1 };
            assert(r[j2] == s[j]);
            assert(has_key(r, k));
            lemma_find_at(r, j2);
            lemma_find_at(s, j);
        }
        if has_key(r, k) {
            let j = key_index(r, k);
            let j2 = if j < i { j } else { j + 1 };
            assert(r[j] == s[j2]);
            assert(has_key(s, k));
        }
    }
}

/// A row stored under a fresh key is what a read of that key gives back;
/// every other key finds what it found before, and keys stay unique.
pub proof fn law_insert_then_find<T: Row>(s: Seq<T>, x: T)
    requires
        keys_unique(s),
        !has_key(s, x.key()),
    ensures
        keys_unique(s.push(x)),
        find_key(s.push(x), x.key()) == Some(x),
        forall|k: Seq<char>| k != x.key() ==> find_key(s.push(x), k) == find_key(s, k),
{
    let r = s.push(x);
    assert forall|a: int, b: int| 0 <= a < r.len() && 0 <= b < r.len() && a != b implies #[trigger] r[a].key() != #[trigger] r[b].key() by {
        if a < s.len() && b < s.len() {
            assert(r[a] == s[a] && r[b] == s[b]);
        } else if a < s.len() {
            assert(r[a] == s[a]);
        } else if b < s.len() {
            assert(r[b] == s[b]);
        }
    }
    lemma_find_at(r, s.len() as int);
    assert forall|k: Seq<char>| k != x.key() implies find_key(r, k) == find_key(s, k) by {
        if has_key(s, k) {
            let j = key_index(s, k);
            assert(r[j] == s[j]);
            lemma_find_at(r, j);
            lemma_find_at(s, j);
        }
        if has_key(r, k) {
            let j = key_index(r, k);
            assert(j < s.len());
            assert(r[j] == s[j]);
        }
    }
}

/// A row appended with unique keys kept had a fresh key.
pub proof fn lemma_pushed_key_fresh<T: Row>(s: Seq<T>, x: T)
    requires
        keys_unique(s.push(x)),
    ensures
        !has_key(s, x.key()),
{
    if has_key(s, x.key()) {
        let j = key_index(s, x.key());
        assert(s.push(x)[j] == s[j]);
        assert(s.push(x)[s.len() as int] == x);
    }
}

/// After row `i` is overwritten by a row with the same key, a read of that
/// key gives back the new row; every other key finds what it found before.
pub proof fn law_update_then_find<T: Row>(s: Seq<T>, i: int, x: T)
    requires
        keys_unique(s),
        0 <= i < s.len(),
        x.key() == s[i].key(),
    ensures
        keys_unique(s.update(i, x)),
        find_key(s.update(i, x), x.key()) == Some(x),
        forall|k: Seq<char>| k != x.key() ==> find_key(s.update(i, x), k) == find_key(s, k),
{
    let r = s.update(i, x);
    assert forall|a: int, b: int| 0 <= a < r.len() && 0 <= b < r.len() && a != b implies #[trigger] r[a].key() != #[trigger] r[b].key() by {
        assert(r[a].key() == s[a].key());
        assert(r[b].key() == s[b].key());
    }
    lemma_find_at(r, i);
    assert forall|k: Seq<char>| k != x.key() implies find_key(r, k) == find_key(s, k) by {
        if has_key(s, k) {
            let j = key_index(s, k);
            assert(j != i);
            assert(r[j] == s[j]);
            lemma_find_at(r, j);
            lemma_find_at(s, j);
        }
        if has_key(r, k) {
            let j = key_index(r, k);
            assert(j != i);
            assert(r[j] == s[j]);
        }
    }
}

/// Appends `row` unless its key is already taken; says whether it was appended.
pub fn insert_unique<T: Row>(rows: &mut Vec<T>, row: T) -> (inserted: bool)
    requires
        keys_unique(old(rows)@),
    ensures
        keys_unique(final(rows)@),
        inserted == !has_key(old(rows)@, row.key()),
        inserted ==> final(rows)@ == old(rows)@.push(row),
        !inserted ==> final(rows)@ == old(rows)@,
{
    let taken = position(rows, row.key_ref().as_str()).is_some();
    if taken {
        return false;
    }
    proof { law_insert_then_find(rows@, row); }
    rows.push(row);
    true
}

/// A copy of every row, in table order.
pub fn copy_rows<T: Row>(rows: &Vec<T>) -> (r: Vec<T>)
    ensures
        r@ == rows@,
{
    let mut r: Vec<T> = Vec::new();
    let mut i: usize = 0;
    while i < rows.len()
        invariant
            i <= rows.len(),
            r@ == rows@.take(i as int),
        decreases rows.len() - i,
    {
        r.push(rows[i].duplicate());
        assert(rows@.take(i + 1) =~= rows@.take(i as int).push(rows@[i as int]));
        i = i + 1;
    }
    assert(rows@.take(rows.len() as int) =~= rows@);
    r
}

/// Rows taken one by one, in order; `None` when two of them share a key.
pub fn unique_rows<T: Row>(rows: Vec<T>) -> (r: Option<Vec<T>>)
    ensures
        r is Some <==> keys_unique(rows@),
        r matches Some(v) ==> v@ == rows@,
{
    let mut out: Vec<T> = Vec::new();
    let mut i: usize = 0;
    while i < rows.len()
        invariant
            i <= rows.len(),
            out@ == rows@.take(i as int),
            keys_unique(out@),
        decreases rows.len() - i,
    {
        let row = rows[i].duplicate();
        let ghost before = out@;
        if !insert_unique(&mut out, row) {
            proof {
                let j = key_index(before, rows@[i as int].key());
                assert(rows@[j] == before[j]);
                assert(!keys_unique(rows@)) by {
                    assert(rows@[j].key() == rows@[i as int].key());
                }
            }
            return None;
        }
        assert(rows@.take(i + 1) =~= rows@.take(i as int).push(rows@[i as int]));
        i = i + 1;
    }
    assert(rows@.take(rows.len() as int) =~= rows@);
    Some(out)
}

/// The rows in listing order (a stable insertion sort).
pub fn listing<T: Row>(rows: &Vec<T>) -> (r: Vec<T>)
    ensures
        is_listing(r@, rows@),
{
    broadcast use vstd::seq_lib::group_to_multiset_ensures;
    let mut out: Vec<T> = Vec::new();
    let n = rows.len();
    let mut i: usize = 0;
    while i < n
        invariant
            i <= n == rows.len(),
            sorted_rows(out@),
            out@.to_multiset() == rows@.take(i as int).to_multiset(),
        decreases n - i,
    {
        let x = rows[i].duplicate();
        let mut p: usize = 0;
        while p < out.len() && out[p].precedes_exec(&x)
            invariant
                p <= out.len(),
                forall|q: int| 0 <= q < p ==> #[trigger] out@[q].precedes(&x),
            decreases out.len() - p,
        {
            p = p + 1;
        }
        let ghost before = out@;
        proof {
            if p < before.len() {
                T::lemma_precedes_total(before[p as int], x);
                assert forall|q: int| p <= q < before.len() implies x.precedes(&#[trigger] before[q]) by {
                    if q > p {
                        T::lemma_precedes_trans(x, before[p as int], before[q]);
                    }
                }
            }
        }
        out.insert(p, x);
        proof {
            let after = out@;
            assert(after == before.insert(p as int, x));
            assert forall|a: int, b: int| 0 <= a < b < after.len() implies #[trigger] after[a].precedes(&#[trigger] after[b]) by {
                if a < p && b < p {
                    assert(after[a] == before[a] && after[b] == before[b]);
                } else if a < p && b == p {
                } else if a < p {
                    assert(after[a] == before[a] && after[b] == before[b - 1]);
                    assert(before[a].precedes(&x));
                    T::lemma_precedes_trans(before[a], x, before[b - 1]);
                } else if a == p {
                    assert(after[b] == before[b - 1]);
                } else {
                    assert(after[a] == before[a - 1] && after[b] == before[b - 1]);
                }
            }
            assert(rows@.take(i + 1) =~= rows@.take(i as int).push(rows@[i as int]));
            vstd::seq_lib::to_multiset_insert(before, p as int, x);
            vstd::seq_lib::to_multiset_build(rows@.take(i as int), rows@[i as int]);
        }
        i = i + 1;
    }
    assert(rows@.take(n as int) =~= rows@);
    out
}

} // verus!
