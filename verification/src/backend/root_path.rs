//! Lexical path handling for the filesystem root: joining a user path
//! onto the root, splitting a path into its components, and deciding
//! whether a joined path still lies under the root.
//!
//! Components follow `std::path` on Unix: `/` separates them, empty
//! components and `.` components are dropped, and a leading `/` makes
//! the path absolute.

use vstd::prelude::*;
use crate::text::chars_of;

verus! {

/// A path starting with `/`.
pub open spec fn is_absolute_path(s: Seq<char>) -> bool {
    s.len() > 0 && s[0] == '/'
}

/// A component that names something: neither empty nor `.`.
pub open spec fn is_named_segment(c: Seq<char>) -> bool {
    c.len() > 0 && c != seq!['.']
}

/// `done` with `cur` appended when `cur` names something.
pub open spec fn keep_segment(done: Seq<Seq<char>>, cur: Seq<char>) -> Seq<Seq<char>> {
    if is_named_segment(cur) {
        done.push(cur)
    } else {
        done
    }
}

/// The state after reading `s` left to right: the components closed
/// by a `/` so far, and the text since the last `/`.
pub open spec fn scan_segments(s: Seq<char>) -> (Seq<Seq<char>>, Seq<char>)
    decreases s.len(),
{
    if s.len() == 0 {
        (Seq::empty(), Seq::empty())
    } else {
        let (done, cur) = scan_segments(s.drop_last());
        if s.last() == '/' {
            (keep_segment(done, cur), Seq::empty())
        } else {
            (done, cur.push(s.last()))
        }
    }
}

/// The components of the path `s`.
pub open spec fn path_components(s: Seq<char>) -> Seq<Seq<char>> {
    let (done, cur) = scan_segments(s);
    keep_segment(done, cur)
}

/// `a` is `p` or one of its ancestors (`Path::ancestors`), both being
/// absolute: the components of `a` begin those of `p`.
pub open spec fn is_ancestor_path(a: Seq<char>, p: Seq<char>) -> bool {
    let ca = path_components(a);
    let cp = path_components(p);
    &&& is_absolute_path(a)
    &&& is_absolute_path(p)
    &&& ca.len() <= cp.len()
    &&& cp.take(ca.len() as int) == ca
}

/// `root.join(path)`: an absolute `path` replaces the root; otherwise
/// it is appended after a `/` unless the root is empty or already ends
/// in one.
pub open spec fn joined_path(root: Seq<char>, path: Seq<char>) -> Seq<char> {
    if is_absolute_path(path) {
        path
    } else if root.len() == 0 || root.last() == '/' {
        root + path
    } else {
        root.push('/') + path
    }
}

/// `root.join(path)` has neither the root nor its canonical form among
/// its ancestors. A relative `path` always stays under the root
/// lexically, so only an absolute one can escape.
pub open spec fn escapes_root(root: Seq<char>, canonical_root: Seq<char>, path: Seq<char>) -> bool {
    &&& is_absolute_path(path)
    &&& !is_ancestor_path(root, path)
    &&& !is_ancestor_path(canonical_root, path)
}

/// The components of `a` begin those of `p`, and both are absolute or
/// both relative: `p` lies lexically under `a`.
pub open spec fn lies_under(a: Seq<char>, p: Seq<char>) -> bool {
    let ca = path_components(a);
    let cp = path_components(p);
    &&& is_absolute_path(a) == is_absolute_path(p)
    &&& ca.len() <= cp.len()
    &&& cp.take(ca.len() as int) == ca
}

/// Scanning `b` after a prefix that ends in `/` continues from the
/// prefix's components.
proof fn lemma_scan_after_separator(a: Seq<char>, b: Seq<char>)
    requires
        a.len() > 0,
        a.last() == '/',
    ensures
        scan_segments(a + b) == (path_components(a.drop_last()) + scan_segments(b).0, scan_segments(b).1),
    decreases b.len(),
{
    if b.len() == 0 {
        assert(a + b =~= a);
        assert(a.drop_last().push('/') =~= a);
        assert(scan_segments(b).0 =~= Seq::<Seq<char>>::empty());
        assert(path_components(a.drop_last()) + scan_segments(b).0 =~= path_components(a.drop_last()));
    } else {
        lemma_scan_after_separator(a, b.drop_last());
        assert((a + b).drop_last() =~= a + b.drop_last());
        assert((a + b).last() == b.last());
        let (db, cb) = scan_segments(b.drop_last());
        let pa = path_components(a.drop_last());
        if is_named_segment(cb) {
            assert((pa + db).push(cb) =~= pa + db.push(cb));
        }
    }
}

/// Components of `a`, a `/`, then `b`: those of `a`, then those of `b`.
proof fn lemma_components_join(a: Seq<char>, b: Seq<char>)
    ensures
        path_components(a.push('/') + b) == path_components(a) + path_components(b),
{
    lemma_scan_after_separator(a.push('/'), b);
    assert(a.push('/').drop_last() =~= a);
    let (db, cb) = scan_segments(b);
    let pa = path_components(a);
    if is_named_segment(cb) {
        assert((pa + db).push(cb) =~= pa + db.push(cb));
    }
}

/// Law: a path the resolution accepts, joined onto the root, lies
/// lexically under the root or under its canonical form. A relative
/// path always lies under the root.
pub proof fn resolved_path_stays_under_root(root: Seq<char>, canonical_root: Seq<char>, path: Seq<char>)
    requires
        !escapes_root(root, canonical_root, path),
    ensures
        lies_under(root, joined_path(root, path)) || lies_under(canonical_root, joined_path(root, path)),
        !is_absolute_path(path) ==> lies_under(root, joined_path(root, path)),
{
    let j = joined_path(root, path);
    if !is_absolute_path(path) {
        if root.len() == 0 {
            assert(j =~= path);
            assert(path_components(root) =~= Seq::<Seq<char>>::empty());
            assert(path_components(j).take(0) =~= Seq::<Seq<char>>::empty());
        } else {
            let r0 = if root.last() == '/' { root.drop_last() } else { root };
            if root.last() == '/' {
                assert(r0.push('/') =~= root);
                lemma_components_join(r0, Seq::<char>::empty());
                assert(r0.push('/') + Seq::<char>::empty() =~= root);
                assert(path_components(Seq::<char>::empty()) =~= Seq::<Seq<char>>::empty());
                assert(path_components(r0) + Seq::<Seq<char>>::empty() =~= path_components(r0));
                assert(j =~= r0.push('/') + path);
            } else {
                assert(j =~= r0.push('/') + path);
            }
            lemma_components_join(r0, path);
            let cr = path_components(root);
            assert(cr == path_components(r0));
            assert((cr + path_components(path)).take(cr.len() as int) =~= cr);
            assert(j[0] == root[0]);
        }
    }
}

/// The texts `bounds` delimit in `s`.
pub open spec fn segments_at(s: Seq<char>, bounds: Seq<(usize, usize)>) -> Seq<Seq<char>> {
    Seq::new(bounds.len(), |k: int| s.subrange(bounds[k].0 as int, bounds[k].1 as int))
}

fn names_something(s: &Vec<char>, a: usize, b: usize) -> (r: bool)
    requires
        a <= b <= s@.len(),
    ensures
        r == is_named_segment(s@.subrange(a as int, b as int)),
{
    let ghost seg = s@.subrange(a as int, b as int);
    if b == a {
        return false;
    }
    if b - a == 1 && s[a] == '.' {
        assert(seg =~= seq!['.']);
        return false;
    }
    if b - a == 1 {
        assert(seg[0] != '.');
    } else {
        assert(seg.len() != 1);
    }
    true
}

/// Where each component of `s` starts and ends.
fn segment_bounds(s: &Vec<char>) -> (r: Vec<(usize, usize)>)
    ensures
        forall|k: int| 0 <= k < r@.len() ==> (#[trigger] r@[k]).0 <= r@[k].1 <= s@.len(),
        segments_at(s@, r@) == path_components(s@),
{
    let mut out: Vec<(usize, usize)> = Vec::new();
    let mut start: usize = 0;
    let mut i: usize = 0;
    assert(s@.take(0) =~= Seq::<char>::empty());
    assert(segments_at(s@, out@) =~= Seq::<Seq<char>>::empty());
    assert(s@.subrange(0, 0) =~= Seq::<char>::empty());
    while i < s.len()
        invariant
            start <= i <= s@.len(),
            forall|k: int| 0 <= k < out@.len() ==> (#[trigger] out@[k]).0 <= out@[k].1 <= start,
            scan_segments(s@.take(i as int)) == (segments_at(s@, out@), s@.subrange(start as int, i as int)),
        decreases s@.len() - i,
    {
        let ghost pre = s@.take(i as int);
        assert(s@.take(i + 1).drop_last() =~= pre);
        assert(s@.take(i + 1).last() == s@[i as int]);
        if s[i] == '/' {
            if names_something(s, start, i) {
                let ghost before = out@;
                out.push((start, i));
                assert(segments_at(s@, out@) =~= segments_at(s@, before).push(s@.subrange(start as int, i as int)));
            }
            start = i + 1;
            assert(s@.subrange(start as int, i + 1) =~= Seq::<char>::empty());
        } else {
            assert(s@.subrange(start as int, i + 1) =~= s@.subrange(start as int, i as int).push(s@[i as int]));
        }
        i = i + 1;
    }
    assert(s@.take(s@.len() as int) =~= s@);
    if names_something(s, start, i) {
        let ghost before = out@;
        out.push((start, i));
        assert(segments_at(s@, out@) =~= segments_at(s@, before).push(s@.subrange(start as int, i as int)));
    }
    out
}

fn same_text(a: &Vec<char>, x: (usize, usize), b: &Vec<char>, y: (usize, usize)) -> (r: bool)
    requires
        x.0 <= x.1 <= a@.len(),
        y.0 <= y.1 <= b@.len(),
    ensures
        r == (a@.subrange(x.0 as int, x.1 as int) == b@.subrange(y.0 as int, y.1 as int)),
{
    let ghost sa = a@.subrange(x.0 as int, x.1 as int);
    let ghost sb = b@.subrange(y.0 as int, y.1 as int);
    if x.1 - x.0 != y.1 - y.0 {
        assert(sa.len() != sb.len());
        return false;
    }
    let n = x.1 - x.0;
    let mut k: usize = 0;
    while k < n
        invariant
            n == x.1 - x.0,
            n == y.1 - y.0,
            x.0 <= x.1 <= a@.len(),
            y.0 <= y.1 <= b@.len(),
            sa == a@.subrange(x.0 as int, x.1 as int),
            sb == b@.subrange(y.0 as int, y.1 as int),
            k <= n,
            forall|j: int| 0 <= j < k ==> sa[j] == sb[j],
        decreases n - k,
    {
        if a[x.0 + k] != b[y.0 + k] {
            assert(sa[k as int] != sb[k as int]);
            return false;
        }
        k = k + 1;
    }
    assert(sa =~= sb);
    true
}

/// Whether `a` is `p` or an ancestor of it, both absolute
/// (`p.ancestors().any(|x| x == a)`).
pub fn is_ancestor(a: &str, p: &str) -> (r: bool)
    ensures
        r == is_ancestor_path(a@, p@),
{
    let ac = chars_of(a);
    let pc = chars_of(p);
    if ac.len() == 0 || ac[0] != '/' || pc.len() == 0 || pc[0] != '/' {
        return false;
    }
    let ba = segment_bounds(&ac);
    let bp = segment_bounds(&pc);
    let ghost ca = segments_at(ac@, ba@);
    let ghost cp = segments_at(pc@, bp@);
    if ba.len() > bp.len() {
        return false;
    }
    let mut k: usize = 0;
    while k < ba.len()
        invariant
            ba@.len() <= bp@.len(),
            k <= ba@.len(),
            ca == segments_at(ac@, ba@),
            cp == segments_at(pc@, bp@),
            ca == path_components(a@),
            cp == path_components(p@),
            is_absolute_path(a@),
            is_absolute_path(p@),
            forall|j: int| 0 <= j < ba@.len() ==> (#[trigger] ba@[j]).0 <= ba@[j].1 <= ac@.len(),
            forall|j: int| 0 <= j < bp@.len() ==> (#[trigger] bp@[j]).0 <= bp@[j].1 <= pc@.len(),
            forall|j: int| 0 <= j < k ==> ca[j] == cp[j],
        decreases ba@.len() - k,
    {
        if !same_text(&ac, ba[k], &pc, bp[k]) {
            assert(cp.take(ca.len() as int)[k as int] != ca[k as int]);
            return false;
        }
        k = k + 1;
    }
    assert(cp.take(ca.len() as int) =~= ca);
    true
}

/// `root.join(path)` as text.
pub fn join_path(root: &str, path: &str) -> (r: String)
    ensures
        r@ == joined_path(root@, path@),
{
    let pc = chars_of(path);
    if pc.len() > 0 && pc[0] == '/' {
        return path.to_owned();
    }
    let rc = chars_of(root);
    let mut out = root.to_owned();
    if rc.len() > 0 && rc[rc.len() - 1] != '/' {
        out.append("/");
        proof {
            reveal_strlit("/");
            assert(out@ =~= root@.push('/'));
        }
    }
    out.append(path);
    out
}

} // verus!
