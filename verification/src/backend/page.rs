//! One page of a listing: entries ordered by name (byte-wise, as Rust
//! orders `str`), resumed strictly after a cursor, capped at a limit.

use vstd::prelude::*;
use vstd::utf8::encode_utf8;
use crate::model::FileEntry;
use crate::backend::{ListOptions, DEFAULT_LIST_LIMIT};
use vstd::string::StringSliceAdditionalSpecFns;

verus! {

/// Byte-wise lexicographic order: `a` sorts strictly before `b`.
pub open spec fn bytes_lt(a: Seq<u8>, b: Seq<u8>) -> bool
    decreases a.len(),
{
    if b.len() == 0 {
        false
    } else if a.len() == 0 {
        true
    } else if a[0] != b[0] {
        a[0] < b[0]
    } else {
        bytes_lt(a.drop_first(), b.drop_first())
    }
}

/// `a` and `b` agree on their first `k` bytes, and there `a` either
/// ends or has the smaller byte, while `b` goes on.
pub open spec fn first_difference_favours(a: Seq<u8>, b: Seq<u8>, k: int) -> bool {
    &&& 0 <= k <= a.len()
    &&& k < b.len()
    &&& a.take(k) == b.take(k)
    &&& (k == a.len() || a[k] < b[k])
}

/// Law (the listing order is the byte order of `str`): `a` sorts
/// strictly before `b` exactly when, at the first position where they
/// differ, `a` has the smaller byte, or `a` is a proper prefix of `b`.
pub proof fn name_order_is_lexicographic(a: Seq<u8>, b: Seq<u8>)
    ensures
        bytes_lt(a, b) <==> exists|k: int| first_difference_favours(a, b, k),
    decreases a.len(),
{
    if b.len() == 0 {
        assert forall|k: int| !first_difference_favours(a, b, k) by {}
    } else if a.len() == 0 {
        assert(a.take(0) =~= b.take(0));
        assert(first_difference_favours(a, b, 0));
    } else if a[0] != b[0] {
        if a[0] < b[0] {
            assert(a.take(0) =~= b.take(0));
            assert(first_difference_favours(a, b, 0));
        }
        assert forall|k: int| first_difference_favours(a, b, k) implies a[0] < b[0] by {
            if k > 0 {
                assert(a.take(k)[0] == b.take(k)[0]);
            }
        }
    } else {
        let a2 = a.drop_first();
        let b2 = b.drop_first();
        name_order_is_lexicographic(a2, b2);
        if bytes_lt(a2, b2) {
            let k2 = choose|k: int| first_difference_favours(a2, b2, k);
            let k = k2 + 1;
            assert forall|j: int| 0 <= j < k implies a.take(k)[j] == b.take(k)[j] by {
                if j > 0 {
                    assert(a2.take(k2)[j - 1] == b2.take(k2)[j - 1]);
                }
            }
            assert(a.take(k) =~= b.take(k));
            assert(first_difference_favours(a, b, k));
        }
        assert forall|k: int| first_difference_favours(a, b, k) implies bytes_lt(a2, b2) by {
            if k == 0 {
                assert(false);
            } else {
                let k2 = k - 1;
                assert forall|j: int| 0 <= j < k2 implies a2.take(k2)[j] == b2.take(k2)[j] by {
                    assert(a.take(k)[j + 1] == b.take(k)[j + 1]);
                }
                assert(a2.take(k2) =~= b2.take(k2));
                assert(first_difference_favours(a2, b2, k2));
            }
        }
    }
}

/// Law: a name sorts strictly before every longer name it begins
/// (`report.csv` before `report.csv.gz`), never after it.
pub proof fn proper_prefix_sorts_first(a: Seq<u8>, s: Seq<u8>)
    requires
        s.len() > 0,
    ensures
        bytes_lt(a, a + s),
        !bytes_lt(a + s, a),
{
    let b = a + s;
    name_order_is_lexicographic(a, b);
    name_order_is_lexicographic(b, a);
    assert(b.take(a.len() as int) =~= a.take(a.len() as int));
    assert(first_difference_favours(a, b, a.len() as int));
    assert forall|k: int| !first_difference_favours(b, a, k) by {
        if first_difference_favours(b, a, k) {
            assert(k < a.len());
            assert(b[k] == a[k]);
        }
    }
}

/// The UTF-8 bytes of a name; names compare by these bytes.
pub open spec fn name_key(name: Seq<char>) -> Seq<u8> {
    encode_utf8(name)
}

/// The sort key of an entry.
pub open spec fn entry_key(e: FileEntry) -> Seq<u8> {
    name_key(e.name@)
}

/// `s` is in non-decreasing name order.
pub open spec fn sorted_by_name(s: Seq<FileEntry>) -> bool {
    forall|i: int, j: int| 0 <= i < j < s.len() ==> !bytes_lt(entry_key(s[j]), entry_key(s[i]))
}

/// `s` with `e` placed after every entry whose name is not greater
/// than its own (the stable insertion step).
pub open spec fn insert_by_name(s: Seq<FileEntry>, e: FileEntry) -> Seq<FileEntry>
    decreases s.len(),
{
    if s.len() == 0 || !bytes_lt(entry_key(e), entry_key(s.last())) {
        s.push(e)
    } else {
        insert_by_name(s.drop_last(), e).push(s.last())
    }
}

/// The stable sort of `s` by name: equal names keep their input order.
pub open spec fn sort_by_name(s: Seq<FileEntry>) -> Seq<FileEntry>
    decreases s.len(),
{
    if s.len() == 0 {
        s
    } else {
        insert_by_name(sort_by_name(s.drop_last()), s.last())
    }
}

/// The entries of `s` whose name sorts strictly after `cursor`, in
/// input order.
pub open spec fn after_cursor(s: Seq<FileEntry>, cursor: Option<Seq<char>>) -> Seq<FileEntry> {
    match cursor {
        None => s,
        Some(c) => s.filter(|e: FileEntry| bytes_lt(name_key(c), entry_key(e))),
    }
}

/// The page of `s` selected by a cursor and a limit: the entries
/// after the cursor, sorted by name, first `limit` of them.
pub open spec fn page_of(s: Seq<FileEntry>, cursor: Option<Seq<char>>, limit: nat) -> Seq<FileEntry> {
    let sorted = sort_by_name(after_cursor(s, cursor));
    if limit < sorted.len() { sorted.take(limit as int) } else { sorted }
}

// ------------------------------------------------------------------
// The byte order is a strict total order.
// ------------------------------------------------------------------

pub proof fn lemma_bytes_lt_irreflexive(a: Seq<u8>)
    ensures
        !bytes_lt(a, a),
    decreases a.len(),
{
    if a.len() > 0 {
        lemma_bytes_lt_irreflexive(a.drop_first());
    }
}

pub proof fn lemma_bytes_lt_asymmetric(a: Seq<u8>, b: Seq<u8>)
    ensures
        bytes_lt(a, b) ==> !bytes_lt(b, a),
    decreases a.len(),
{
    if a.len() > 0 && b.len() > 0 && a[0] == b[0] {
        lemma_bytes_lt_asymmetric(a.drop_first(), b.drop_first());
    }
}

pub proof fn lemma_bytes_lt_transitive(a: Seq<u8>, b: Seq<u8>, c: Seq<u8>)
    requires
        bytes_lt(a, b),
        bytes_lt(b, c),
    ensures
        bytes_lt(a, c),
    decreases a.len(),
{
    if a.len() > 0 && b.len() > 0 && c.len() > 0 && a[0] == b[0] && b[0] == c[0] {
        lemma_bytes_lt_transitive(a.drop_first(), b.drop_first(), c.drop_first());
    }
}

pub proof fn lemma_bytes_lt_total(a: Seq<u8>, b: Seq<u8>)
    ensures
        a == b || bytes_lt(a, b) || bytes_lt(b, a),
    decreases a.len(),
{
    if a.len() > 0 && b.len() > 0 && a[0] == b[0] {
        lemma_bytes_lt_total(a.drop_first(), b.drop_first());
        if a.drop_first() == b.drop_first() {
            assert(a =~= seq![a[0]] + a.drop_first());
            assert(b =~= seq![b[0]] + b.drop_first());
        }
    } else if a.len() == 0 && b.len() == 0 {
        assert(a =~= b);
    }
}

/// Not-greater-than is transitive.
pub proof fn lemma_bytes_le_transitive(a: Seq<u8>, b: Seq<u8>, c: Seq<u8>)
    requires
        !bytes_lt(b, a),
        !bytes_lt(c, b),
    ensures
        !bytes_lt(c, a),
{
    lemma_bytes_lt_total(a, b);
    lemma_bytes_lt_total(b, c);
    if bytes_lt(c, a) {
        if bytes_lt(a, b) {
            lemma_bytes_lt_transitive(c, a, b);
            lemma_bytes_lt_asymmetric(c, b);
        } else {
            // a == b
            lemma_bytes_lt_asymmetric(c, b);
        }
    }
}


// ------------------------------------------------------------------
// Sorting by name.
// ------------------------------------------------------------------

/// `s` is in strictly increasing name order.
pub open spec fn strictly_sorted_by_name(s: Seq<FileEntry>) -> bool {
    forall|i: int, j: int| 0 <= i < j < s.len() ==> bytes_lt(entry_key(s[i]), entry_key(s[j]))
}

/// No two entries of `s` share a name.
pub open spec fn names_distinct(s: Seq<FileEntry>) -> bool {
    forall|i: int, j: int| 0 <= i < j < s.len() ==> entry_key(s[i]) != entry_key(s[j])
}

proof fn lemma_push_last(t: Seq<FileEntry>)
    requires
        t.len() > 0,
    ensures
        t == t.drop_last().push(t.last()),
{
    assert(t =~= t.drop_last().push(t.last()));
}

proof fn lemma_insert_contains(t: Seq<FileEntry>, e: FileEntry)
    ensures
        insert_by_name(t, e).len() == t.len() + 1,
        forall|x: FileEntry| #[trigger] insert_by_name(t, e).contains(x) <==> (t.contains(x) || x == e),
    decreases t.len(),
{
    if t.len() == 0 || !bytes_lt(entry_key(e), entry_key(t.last())) {
        assert forall|x: FileEntry| #[trigger] t.push(e).contains(x) <==> (t.contains(x) || x == e) by {
            if t.push(e).contains(x) {
                let i = choose|i: int| 0 <= i < t.push(e).len() && t.push(e)[i] == x;
                if i < t.len() {
                    assert(t[i] == x);
                }
            }
            if t.contains(x) {
                let i = choose|i: int| 0 <= i < t.len() && t[i] == x;
                assert(t.push(e)[i] == x);
            }
            if x == e {
                assert(t.push(e)[t.len() as int] == x);
            }
        }
    } else {
        let t2 = t.drop_last();
        lemma_insert_contains(t2, e);
        lemma_push_last(t);
        let r = insert_by_name(t2, e);
        assert forall|x: FileEntry| #[trigger] r.push(t.last()).contains(x) <==> (t.contains(x) || x == e) by {
            if r.push(t.last()).contains(x) {
                let i = choose|i: int| 0 <= i < r.push(t.last()).len() && r.push(t.last())[i] == x;
                if i < r.len() {
                    assert(r.contains(x));
                    if t2.contains(x) {
                        let k = choose|k: int| 0 <= k < t2.len() && t2[k] == x;
                        assert(t[k] == x);
                    }
                } else {
                    assert(t[t.len() - 1] == x);
                }
            }
            if t.contains(x) {
                let k = choose|k: int| 0 <= k < t.len() && t[k] == x;
                if k < t.len() - 1 {
                    assert(t2[k] == x);
                    assert(r.contains(x));
                    let i = choose|i: int| 0 <= i < r.len() && r[i] == x;
                    assert(r.push(t.last())[i] == x);
                } else {
                    assert(r.push(t.last())[r.len() as int] == x);
                }
            }
            if x == e {
                assert(r.contains(x));
                let i = choose|i: int| 0 <= i < r.len() && r[i] == x;
                assert(r.push(t.last())[i] == x);
            }
        }
    }
}

/// Sorting keeps exactly the entries it was given.
pub proof fn lemma_sort_contains(s: Seq<FileEntry>)
    ensures
        sort_by_name(s).len() == s.len(),
        forall|x: FileEntry| #[trigger] sort_by_name(s).contains(x) <==> s.contains(x),
    decreases s.len(),
{
    if s.len() > 0 {
        let s2 = s.drop_last();
        lemma_sort_contains(s2);
        lemma_insert_contains(sort_by_name(s2), s.last());
        lemma_push_last(s);
        assert forall|x: FileEntry| #[trigger] sort_by_name(s).contains(x) <==> s.contains(x) by {
            if s.contains(x) {
                let k = choose|k: int| 0 <= k < s.len() && s[k] == x;
                if k < s.len() - 1 {
                    assert(s2[k] == x);
                }
            }
            if s2.contains(x) {
                let k = choose|k: int| 0 <= k < s2.len() && s2[k] == x;
                assert(s[k] == x);
            }
        }
    }
}

proof fn lemma_insert_sorted(t: Seq<FileEntry>, e: FileEntry)
    requires
        sorted_by_name(t),
    ensures
        sorted_by_name(insert_by_name(t, e)),
    decreases t.len(),
{
    if t.len() == 0 || !bytes_lt(entry_key(e), entry_key(t.last())) {
        let r = t.push(e);
        assert forall|i: int, j: int| 0 <= i < j < r.len() implies !bytes_lt(
            entry_key(r[j]),
            entry_key(r[i]),
        ) by {
            if j == t.len() {
                if i < t.len() - 1 {
                    lemma_bytes_le_transitive(entry_key(t[i]), entry_key(t.last()), entry_key(e));
                }
            }
        }
    } else {
        let t2 = t.drop_last();
        let last = t.last();
        lemma_insert_sorted(t2, e);
        lemma_insert_contains(t2, e);
        let r2 = insert_by_name(t2, e);
        let r = r2.push(last);
        assert forall|i: int, j: int| 0 <= i < j < r.len() implies !bytes_lt(
            entry_key(r[j]),
            entry_key(r[i]),
        ) by {
            if j == r2.len() {
                let x = r2[i];
                assert(r2.contains(x));
                if x == e {
                    lemma_bytes_lt_asymmetric(entry_key(e), entry_key(last));
                } else {
                    assert(t2.contains(x));
                    let k = choose|k: int| 0 <= k < t2.len() && t2[k] == x;
                    assert(t[k] == x);
                }
            }
        }
    }
}

/// The sort is ordered by name.
pub proof fn lemma_sort_sorted(s: Seq<FileEntry>)
    ensures
        sorted_by_name(sort_by_name(s)),
    decreases s.len(),
{
    if s.len() > 0 {
        lemma_sort_sorted(s.drop_last());
        lemma_insert_sorted(sort_by_name(s.drop_last()), s.last());
    }
}

proof fn lemma_insert_strict(t: Seq<FileEntry>, e: FileEntry)
    requires
        strictly_sorted_by_name(t),
        forall|x: FileEntry| t.contains(x) ==> entry_key(x) != entry_key(e),
    ensures
        strictly_sorted_by_name(insert_by_name(t, e)),
    decreases t.len(),
{
    if t.len() == 0 || !bytes_lt(entry_key(e), entry_key(t.last())) {
        let r = t.push(e);
        if t.len() > 0 {
            assert(t.contains(t.last()));
            lemma_bytes_lt_total(entry_key(t.last()), entry_key(e));
        }
        assert forall|i: int, j: int| 0 <= i < j < r.len() implies bytes_lt(
            entry_key(r[i]),
            entry_key(r[j]),
        ) by {
            if j == t.len() && i < t.len() - 1 {
                lemma_bytes_lt_transitive(entry_key(t[i]), entry_key(t.last()), entry_key(e));
            }
        }
    } else {
        let t2 = t.drop_last();
        let last = t.last();
        assert forall|x: FileEntry| t2.contains(x) implies entry_key(x) != entry_key(e) by {
            let k = choose|k: int| 0 <= k < t2.len() && t2[k] == x;
            assert(t[k] == x);
        }
        lemma_insert_strict(t2, e);
        lemma_insert_contains(t2, e);
        let r2 = insert_by_name(t2, e);
        let r = r2.push(last);
        assert forall|i: int, j: int| 0 <= i < j < r.len() implies bytes_lt(
            entry_key(r[i]),
            entry_key(r[j]),
        ) by {
            if j == r2.len() {
                let x = r2[i];
                assert(r2.contains(x));
                if x != e {
                    assert(t2.contains(x));
                    let k = choose|k: int| 0 <= k < t2.len() && t2[k] == x;
                    assert(t[k] == x);
                }
            }
        }
    }
}

/// With distinct names, the sort is strictly increasing.
pub proof fn lemma_sort_strict(s: Seq<FileEntry>)
    requires
        names_distinct(s),
    ensures
        strictly_sorted_by_name(sort_by_name(s)),
    decreases s.len(),
{
    if s.len() > 0 {
        let s2 = s.drop_last();
        assert(names_distinct(s2));
        lemma_sort_strict(s2);
        lemma_sort_contains(s2);
        assert forall|x: FileEntry| sort_by_name(s2).contains(x) implies entry_key(x) != entry_key(
            s.last(),
        ) by {
            assert(s2.contains(x));
            let k = choose|k: int| 0 <= k < s2.len() && s2[k] == x;
            assert(s[k] == x);
        }
        lemma_insert_strict(sort_by_name(s2), s.last());
    }
}


// ------------------------------------------------------------------
// Filtering commutes with the stable sort.
// ------------------------------------------------------------------

proof fn lemma_insert_filter(t: Seq<FileEntry>, e: FileEntry, p: spec_fn(FileEntry) -> bool)
    requires
        sorted_by_name(t),
    ensures
        insert_by_name(t, e).filter(p) == (if p(e) {
            insert_by_name(t.filter(p), e)
        } else {
            t.filter(p)
        }),
    decreases t.len(),
{
    broadcast use Seq::lemma_filter_push;
    broadcast use Seq::lemma_filter_contains_rev;

    if t.len() == 0 {
        assert(t.filter(p) =~= t) by {
            reveal(Seq::filter);
        }
    } else if !bytes_lt(entry_key(e), entry_key(t.last())) {
        if p(e) {
            let f = t.filter(p);
            if f.len() > 0 {
                assert(f.contains(f.last()));
                assert(t.contains(f.last()));
                let k = choose|k: int| 0 <= k < t.len() && t[k] == f.last();
                if k < t.len() - 1 {
                    lemma_bytes_le_transitive(entry_key(t[k]), entry_key(t.last()), entry_key(e));
                }
            }
        }
    } else {
        let t2 = t.drop_last();
        let last = t.last();
        lemma_push_last(t);
        lemma_insert_filter(t2, e, p);
        if p(e) && p(last) {
            assert(t.filter(p) == t2.filter(p).push(last));
            assert(t.filter(p).last() == last);
            assert(t.filter(p).drop_last() =~= t2.filter(p));
        }
    }
}

/// Law: sorting then filtering equals filtering then sorting, for any
/// predicate on entries.
pub proof fn lemma_sort_filter(s: Seq<FileEntry>, p: spec_fn(FileEntry) -> bool)
    ensures
        sort_by_name(s.filter(p)) == sort_by_name(s).filter(p),
    decreases s.len(),
{
    broadcast use Seq::lemma_filter_push;

    if s.len() == 0 {
        assert(s.filter(p) =~= s) by {
            reveal(Seq::filter);
        }
        assert(sort_by_name(s).filter(p) =~= s) by {
            reveal(Seq::filter);
        }
    } else {
        let s2 = s.drop_last();
        let last = s.last();
        lemma_push_last(s);
        lemma_sort_filter(s2, p);
        lemma_sort_sorted(s2);
        lemma_insert_filter(sort_by_name(s2), last, p);
        if p(last) {
            let f = s.filter(p);
            assert(f == s2.filter(p).push(last));
            assert(f.drop_last() =~= s2.filter(p));
        }
    }
}

proof fn lemma_filter_none(s: Seq<FileEntry>, p: spec_fn(FileEntry) -> bool)
    requires
        forall|i: int| 0 <= i < s.len() ==> !p(#[trigger] s[i]),
    ensures
        s.filter(p).len() == 0,
    decreases s.len(),
{
    broadcast use Seq::lemma_filter_push;

    if s.len() == 0 {
        reveal(Seq::filter);
    } else {
        lemma_push_last(s);
        let s2 = s.drop_last();
        assert forall|i: int| 0 <= i < s2.len() implies !p(#[trigger] s2[i]) by {
            assert(s2[i] == s[i]);
        }
        lemma_filter_none(s2, p);
    }
}

/// In a strictly sorted sequence, the entries after the name at index
/// `k - 1` are exactly those from index `k` on.
proof fn lemma_after_index(s: Seq<FileEntry>, k: int)
    requires
        strictly_sorted_by_name(s),
        0 < k <= s.len(),
    ensures
        after_cursor(s, Some(s[k - 1].name@)) == s.skip(k),
    decreases s.len(),
{
    broadcast use Seq::lemma_filter_push;

    let c = s[k - 1].name@;
    let p = |e: FileEntry| bytes_lt(name_key(c), entry_key(e));
    if s.len() == k {
        assert forall|i: int| 0 <= i < s.len() implies !p(#[trigger] s[i]) by {
            if i < k - 1 {
                lemma_bytes_lt_asymmetric(entry_key(s[i]), entry_key(s[k - 1]));
            } else {
                lemma_bytes_lt_irreflexive(entry_key(s[k - 1]));
            }
        }
        lemma_filter_none(s, p);
        assert(s.filter(p) =~= s.skip(k));
    } else {
        let s2 = s.drop_last();
        lemma_push_last(s);
        assert(s2[k - 1] == s[k - 1]);
        lemma_after_index(s2, k);
        assert(bytes_lt(entry_key(s[k - 1]), entry_key(s[s.len() - 1])));
        assert(p(s.last()));
        assert(s.skip(k) =~= s2.skip(k).push(s.last()));
    }
}

/// Law (resuming a listing): when a page of `limit` entries comes back
/// full, asking again with `startAfter` set to its last name returns the
/// next entries, so the two pages together are the first `2 * limit`
/// entries. Holds when no two listed entries share a name.
pub proof fn lemma_resume_after_full_page(s: Seq<FileEntry>, limit: nat)
    requires
        names_distinct(s),
        limit > 0,
        page_of(s, None, limit).len() == limit,
    ensures
        page_of(s, None, limit) + page_of(s, Some(page_of(s, None, limit).last().name@), limit)
            == page_of(s, None, 2 * limit),
{
    let sorted = sort_by_name(s);
    lemma_sort_contains(s);
    lemma_sort_strict(s);
    let k = limit as int;
    let p1 = page_of(s, None, limit);
    assert(p1 =~= sorted.take(k));
    let c = p1.last().name@;
    assert(c == sorted[k - 1].name@);
    let p = |e: FileEntry| bytes_lt(name_key(c), entry_key(e));
    lemma_sort_filter(s, p);
    lemma_after_index(sorted, k);
    assert(sort_by_name(after_cursor(s, Some(c))) == sorted.skip(k));
    if 2 * k <= sorted.len() {
        assert(sorted.take(k) + sorted.skip(k).take(k) =~= sorted.take(2 * k));
    } else {
        assert(sorted.take(k) + sorted.skip(k) =~= sorted);
    }
}


/// Law (what a page is): a page holds at most `limit` entries, in name
/// order, every one taken from the listing and, when a cursor is given,
/// named strictly after it.
pub proof fn page_is_ordered_and_bounded(s: Seq<FileEntry>, cursor: Option<Seq<char>>, limit: nat)
    ensures
        page_of(s, cursor, limit).len() <= limit,
        sorted_by_name(page_of(s, cursor, limit)),
        forall|i: int| 0 <= i < page_of(s, cursor, limit).len() ==> s.contains(#[trigger] page_of(s, cursor, limit)[i]),
        forall|i: int| #![trigger page_of(s, cursor, limit)[i]]
            0 <= i < page_of(s, cursor, limit).len() ==> (cursor matches Some(c) ==> bytes_lt(name_key(c), entry_key(page_of(s, cursor, limit)[i]))),
{
    let a = after_cursor(s, cursor);
    let sorted = sort_by_name(a);
    let pg = page_of(s, cursor, limit);
    lemma_sort_sorted(a);
    lemma_sort_contains(a);
    assert forall|i: int| 0 <= i < pg.len() implies s.contains(#[trigger] pg[i]) && (cursor matches Some(c) ==> bytes_lt(name_key(c), entry_key(pg[i]))) by {
        assert(pg[i] == sorted[i]);
        assert(sorted.contains(pg[i]));
        assert(a.contains(pg[i]));
        lemma_filter_in(s, cursor, pg[i]);
        let j = choose|j: int| 0 <= j < a.len() && a[j] == pg[i];
        match cursor {
            None => {},
            Some(c) => {
                let p = |e: FileEntry| bytes_lt(name_key(c), entry_key(e));
                s.lemma_filter_pred(p, j);
            },
        }
    }
}

proof fn lemma_filter_in(s: Seq<FileEntry>, cursor: Option<Seq<char>>, e: FileEntry)
    requires
        after_cursor(s, cursor).contains(e),
    ensures
        s.contains(e),
    decreases s.len(),
{
    match cursor {
        None => {},
        Some(c) => {
            let p = |x: FileEntry| bytes_lt(name_key(c), entry_key(x));
            s.lemma_filter_contains_rev(p, e);
        },
    }
}

// ------------------------------------------------------------------
// Executable paging.
// ------------------------------------------------------------------

/// The cursor of listing options, as characters.
pub open spec fn cursor_of(opts: ListOptions) -> Option<Seq<char>> {
    match opts.start_after {
        Some(c) => Some(c@),
        None => None,
    }
}

/// The limit a listing applies: the requested one, else the default.
pub open spec fn limit_of(opts: ListOptions) -> nat {
    match opts.limit {
        Some(n) => n as nat,
        None => DEFAULT_LIST_LIMIT as nat,
    }
}

/// `a` sorts strictly before `b` (byte-wise, as `str` compares).
pub fn name_less(a: &str, b: &str) -> (r: bool)
    ensures
        r == bytes_lt(name_key(a@), name_key(b@)),
{
    let x = a.as_bytes();
    let y = b.as_bytes();
    let mut i: usize = 0;
    assert(x@.skip(0) =~= x@);
    assert(y@.skip(0) =~= y@);
    while i < x.len() && i < y.len() && x[i] == y[i]
        invariant
            i <= x@.len(),
            i <= y@.len(),
            bytes_lt(x@, y@) == bytes_lt(x@.skip(i as int), y@.skip(i as int)),
        decreases x@.len() - i,
    {
        assert(x@.skip(i as int).drop_first() =~= x@.skip(i + 1));
        assert(y@.skip(i as int).drop_first() =~= y@.skip(i + 1));
        i = i + 1;
    }
    assert(x@ == a.spec_bytes());
    if i < y.len() {
        if i < x.len() {
            x[i] < y[i]
        } else {
            true
        }
    } else {
        false
    }
}

/// Whether an entry lies after the cursor.
pub open spec fn after_cursor_keeps(cursor: Option<Seq<char>>, e: FileEntry) -> bool {
    match cursor {
        None => true,
        Some(c) => bytes_lt(name_key(c), entry_key(e)),
    }
}

proof fn lemma_after_cursor_push(s: Seq<FileEntry>, e: FileEntry, cursor: Option<Seq<char>>)
    ensures
        after_cursor(s.push(e), cursor) == if after_cursor_keeps(cursor, e) {
            after_cursor(s, cursor).push(e)
        } else {
            after_cursor(s, cursor)
        },
{
    match cursor {
        None => {},
        Some(c) => {
            s.lemma_filter_push(e, |x: FileEntry| bytes_lt(name_key(c), entry_key(x)));
        },
    }
}

fn copy_entry(e: &FileEntry) -> (r: FileEntry)
    ensures
        r == *e,
{
    FileEntry {
        name: e.name.clone(),
        size: e.size,
        last_modified: match &e.last_modified {
            Some(t) => Some(t.clone()),
            None => None,
        },
    }
}

proof fn lemma_insert_at(t: Seq<FileEntry>, e: FileEntry, p: int)
    requires
        0 <= p <= t.len(),
        forall|i: int| 0 <= i < p ==> !bytes_lt(entry_key(e), #[trigger] entry_key(t[i])),
        forall|j: int| p <= j < t.len() ==> bytes_lt(entry_key(e), #[trigger] entry_key(t[j])),
    ensures
        insert_by_name(t, e) == t.insert(p, e),
    decreases t.len(),
{
    if t.len() == 0 || !bytes_lt(entry_key(e), entry_key(t.last())) {
        assert(p == t.len());
        assert(t.push(e) =~= t.insert(p, e));
    } else {
        let t2 = t.drop_last();
        lemma_insert_at(t2, e, p);
        assert(t2.insert(p, e).push(t.last()) =~= t.insert(p, e));
    }
}

fn insert_sorted(v: &mut Vec<FileEntry>, e: FileEntry)
    requires
        sorted_by_name(old(v)@),
    ensures
        final(v)@ == insert_by_name(old(v)@, e),
{
    let mut lo: usize = 0;
    let mut hi: usize = v.len();
    while lo < hi
        invariant
            lo <= hi <= v@.len(),
            sorted_by_name(v@),
            forall|i: int| 0 <= i < lo ==> !bytes_lt(entry_key(e), #[trigger] entry_key(v@[i])),
            forall|j: int| hi <= j < v@.len() ==> bytes_lt(entry_key(e), #[trigger] entry_key(v@[j])),
        decreases hi - lo,
    {
        let mid = lo + (hi - lo) / 2;
        if name_less(e.name.as_str(), v[mid].name.as_str()) {
            assert forall|j: int| mid <= j < v@.len() implies bytes_lt(
                entry_key(e),
                #[trigger] entry_key(v@[j]),
            ) by {
                if j > mid {
                    lemma_bytes_lt_total(entry_key(v@[mid as int]), entry_key(v@[j]));
                    if entry_key(v@[mid as int]) != entry_key(v@[j]) {
                        lemma_bytes_lt_transitive(entry_key(e), entry_key(v@[mid as int]), entry_key(v@[j]));
                    }
                }
            }
            hi = mid;
        } else {
            assert forall|i: int| 0 <= i <= mid implies !bytes_lt(
                entry_key(e),
                #[trigger] entry_key(v@[i]),
            ) by {
                if i < mid {
                    lemma_bytes_le_transitive(entry_key(v@[i]), entry_key(v@[mid as int]), entry_key(e));
                    lemma_bytes_lt_total(entry_key(e), entry_key(v@[i]));
                    if bytes_lt(entry_key(e), entry_key(v@[i])) {
                        lemma_bytes_lt_asymmetric(entry_key(e), entry_key(v@[i]));
                    }
                }
            }
            lo = mid + 1;
        }
    }
    proof {
        lemma_insert_at(v@, e, lo as int);
    }
    v.insert(lo, e);
}

/// One page of `entries`: those named strictly after
/// `opts.start_after` (when set), in name order (ties keep their input
/// order), at most `opts.limit` of them (`DEFAULT_LIST_LIMIT` when
/// unset).
pub fn page(entries: &Vec<FileEntry>, opts: &ListOptions) -> (r: Vec<FileEntry>)
    ensures
        r@ == page_of(entries@, cursor_of(*opts), limit_of(*opts)),
{
    broadcast use Seq::lemma_filter_push;

    let ghost cursor = cursor_of(*opts);
    let mut out: Vec<FileEntry> = Vec::new();
    let mut i: usize = 0;
    proof {
        assert(entries@.take(0) =~= Seq::<FileEntry>::empty());
        reveal(Seq::filter);
    }
    while i < entries.len()
        invariant
            i <= entries@.len(),
            cursor == cursor_of(*opts),
            out@ == sort_by_name(after_cursor(entries@.take(i as int), cursor)),
            sorted_by_name(out@),
        decreases entries@.len() - i,
    {
        let e = &entries[i];
        let keep = match &opts.start_after {
            Some(c) => name_less(c.as_str(), e.name.as_str()),
            None => true,
        };
        let ghost before = entries@.take(i as int);
        proof {
            assert(entries@.take(i + 1) =~= before.push(entries@[i as int]));
            lemma_after_cursor_push(before, entries@[i as int], cursor);
        }
        if keep {
            let ghost prev = after_cursor(before, cursor);
            proof {
                assert(after_cursor(entries@.take(i + 1), cursor) == prev.push(entries@[i as int]));
                assert(prev.push(entries@[i as int]).drop_last() =~= prev);
            }
            insert_sorted(&mut out, copy_entry(e));
            proof {
                lemma_insert_sorted(sort_by_name(prev), entries@[i as int]);
            }
        } else {
            proof {
                assert(after_cursor(entries@.take(i + 1), cursor) == after_cursor(before, cursor));
            }
        }
        i = i + 1;
    }
    proof {
        assert(entries@.take(entries@.len() as int) =~= entries@);
    }
    let limit = match opts.limit {
        Some(n) => n,
        None => DEFAULT_LIST_LIMIT,
    };
    out.truncate(limit);
    out
}

} // verus!
