//! Validation of user-supplied file paths (copy source/destination and
//! the listing cursor).
//!
//! A path is accepted when it is non-empty, holds no null byte, uses
//! only `[0-9a-zA-Z._/-]`, and has no `/`-separated segment equal to
//! `.` or `..`. The checks run, and report, in that order.

use vstd::prelude::*;
use crate::error::FerryError;
use vstd::string::StringSliceAdditionalSpecFns;

verus! {

/// Bytes a path may contain: ASCII letters, digits, `-`, `.`, `_`, `/`.
pub open spec fn allowed_path_byte(b: u8) -> bool {
    ||| 48 <= b <= 57
    ||| 65 <= b <= 90
    ||| 97 <= b <= 122
    ||| b == 45
    ||| b == 46
    ||| b == 95
    ||| b == 47
}

/// Position `i` opens a segment: it is the start or follows a `/`.
pub open spec fn segment_starts_at(p: Seq<u8>, i: int) -> bool {
    i == 0 || p[i - 1] == 47
}

/// Position `j` closes a segment: it is the end or holds a `/`.
pub open spec fn segment_ends_at(p: Seq<u8>, j: int) -> bool {
    j == p.len() || p[j] == 47
}

/// A segment equal to `.` or `..` starts at `i`.
pub open spec fn dot_segment_at(p: Seq<u8>, i: int) -> bool {
    &&& 0 <= i < p.len()
    &&& segment_starts_at(p, i)
    &&& p[i] == 46
    &&& (segment_ends_at(p, i + 1) || (i + 1 < p.len() && p[i + 1] == 46 && segment_ends_at(
        p,
        i + 2,
    )))
}

/// Some `/`-separated segment of `p` is exactly `.` or `..`.
pub open spec fn has_dot_segment(p: Seq<u8>) -> bool {
    exists|i: int| dot_segment_at(p, i)
}

/// Why a path is refused.
pub enum PathRejection {
    Empty,
    NullByte,
    DisallowedCharacter,
    Traversal,
}

/// The first failing check on the bytes of a path, if any.
pub open spec fn path_rejection(p: Seq<u8>) -> Option<PathRejection> {
    if p.len() == 0 {
        Some(PathRejection::Empty)
    } else if p.contains(0u8) {
        Some(PathRejection::NullByte)
    } else if !(forall|i: int| 0 <= i < p.len() ==> allowed_path_byte(#[trigger] p[i])) {
        Some(PathRejection::DisallowedCharacter)
    } else if has_dot_segment(p) {
        Some(PathRejection::Traversal)
    } else {
        None
    }
}

/// The text carried by `InvalidPath` for each rejection.
pub open spec fn rejection_text(r: PathRejection) -> Seq<char> {
    match r {
        PathRejection::Empty => "empty path"@,
        PathRejection::NullByte => "null byte in path"@,
        PathRejection::DisallowedCharacter => "path contains disallowed characters (allowed: 0-9 a-z A-Z - . _ /)"@,
        PathRejection::Traversal => "path traversal detected"@,
    }
}

/// A path is valid when no check refuses it.
pub open spec fn path_is_valid(p: Seq<u8>) -> bool {
    path_rejection(p) is None
}

fn rejection(r: PathRejection) -> (e: FerryError)
    ensures
        e matches FerryError::InvalidPath(m) && m@ == rejection_text(r),
{
    let text = match r {
        PathRejection::Empty => "empty path",
        PathRejection::NullByte => "null byte in path",
        PathRejection::DisallowedCharacter => "path contains disallowed characters (allowed: 0-9 a-z A-Z - . _ /)",
        PathRejection::Traversal => "path traversal detected",
    };
    FerryError::InvalidPath(String::from_str(text))
}

/// True when some segment of `p` is exactly `.` or `..`.
fn is_traversal(p: &[u8]) -> (r: bool)
    ensures
        r == has_dot_segment(p@),
{
    let n = p.len();
    let mut i: usize = 0;
    while i < n
        invariant
            n == p@.len(),
            i <= n,
            forall|k: int| 0 <= k < i ==> !dot_segment_at(p@, k),
        decreases n - i,
    {
        if (i == 0 || p[i - 1] == 47) && p[i] == 46 {
            if i + 1 == n || p[i + 1] == 47 {
                assert(dot_segment_at(p@, i as int));
                return true;
            }
            if p[i + 1] == 46 && (i + 2 == n || p[i + 2] == 47) {
                assert(dot_segment_at(p@, i as int));
                return true;
            }
        }
        i = i + 1;
    }
    false
}

/// Checks a user-supplied path. `Ok(())` exactly when the path is
/// valid; otherwise `InvalidPath` naming the first failing check.
pub fn validate_path(path: &str) -> (r: Result<(), FerryError>)
    ensures
        match path_rejection(path.spec_bytes()) {
            None => r is Ok,
            Some(why) => r matches Err(FerryError::InvalidPath(m)) && m@ == rejection_text(why),
        },
{
    let p = path.as_bytes();
    let n = p.len();
    if n == 0 {
        return Err(rejection(PathRejection::Empty));
    }
    let mut i: usize = 0;
    while i < n
        invariant
            n == p@.len(),
            p@ == path.spec_bytes(),
            i <= n,
            forall|k: int| 0 <= k < i ==> p@[k] != 0u8,
        decreases n - i,
    {
        if p[i] == 0 {
            assert(p@.contains(0u8));
            return Err(rejection(PathRejection::NullByte));
        }
        i = i + 1;
    }
    assert(!p@.contains(0u8));
    i = 0;
    while i < n
        invariant
            n == p@.len(),
            p@ == path.spec_bytes(),
            !p@.contains(0u8),
            i <= n,
            forall|k: int| 0 <= k < i ==> allowed_path_byte(#[trigger] p@[k]),
        decreases n - i,
    {
        let b = p[i];
        let ok = (48 <= b && b <= 57) || (65 <= b && b <= 90) || (97 <= b && b <= 122) || b == 45
            || b == 46 || b == 95 || b == 47;
        if !ok {
            assert(!allowed_path_byte(p@[i as int]));
            return Err(rejection(PathRejection::DisallowedCharacter));
        }
        i = i + 1;
    }
    if is_traversal(p) {
        return Err(rejection(PathRejection::Traversal));
    }
    Ok(())
}

/// Law: an accepted path is non-empty, uses only the allowed bytes
/// (so it holds no null byte), and no segment of it is `.` or `..`.
pub proof fn valid_path_is_confined(p: Seq<u8>)
    requires
        path_is_valid(p),
    ensures
        p.len() > 0,
        forall|i: int| 0 <= i < p.len() ==> allowed_path_byte(#[trigger] p[i]) && p[i] != 0u8,
        forall|i: int| !dot_segment_at(p, i),
{
}

/// A byte of the documented whitelist `[0-9a-zA-Z._/-]`.
pub open spec fn in_documented_charset(b: u8) -> bool {
    ||| ('0' as u8) <= b && b <= ('9' as u8)
    ||| ('a' as u8) <= b && b <= ('z' as u8)
    ||| ('A' as u8) <= b && b <= ('Z' as u8)
    ||| b == ('.' as u8)
    ||| b == ('_' as u8)
    ||| b == ('/' as u8)
    ||| b == ('-' as u8)
}

/// Bytes `i..j` of `p` are a whole `/`-separated segment equal to `.`
/// or `..`.
pub open spec fn dot_segment_between(p: Seq<u8>, i: int, j: int) -> bool {
    &&& 0 <= i <= j <= p.len()
    &&& (i == 0 || p[i - 1] == ('/' as u8))
    &&& (j == p.len() || p[j] == ('/' as u8))
    &&& (p.subrange(i, j) == seq!['.' as u8] || p.subrange(i, j) == seq!['.' as u8, '.' as u8])
}

proof fn lemma_dot_segment_forms(p: Seq<u8>)
    ensures
        has_dot_segment(p) <==> exists|i: int, j: int| dot_segment_between(p, i, j),
{
    if has_dot_segment(p) {
        let i = choose|i: int| dot_segment_at(p, i);
        if segment_ends_at(p, i + 1) {
            assert(p.subrange(i, i + 1) =~= seq!['.' as u8]);
            assert(dot_segment_between(p, i, i + 1));
        } else {
            assert(p.subrange(i, i + 2) =~= seq!['.' as u8, '.' as u8]);
            assert(dot_segment_between(p, i, i + 2));
        }
    }
    if exists|i: int, j: int| dot_segment_between(p, i, j) {
        let (i, j) = choose|i: int, j: int| dot_segment_between(p, i, j);
        if p.subrange(i, j) == seq!['.' as u8] {
            assert(p.subrange(i, j).len() == 1);
            assert(p[i] == p.subrange(i, j)[0]);
            assert(j == i + 1);
        } else {
            assert(p.subrange(i, j).len() == 2);
            assert(p[i] == p.subrange(i, j)[0]);
            assert(p[i + 1] == p.subrange(i, j)[1]);
            assert(j == i + 2);
        }
        assert(dot_segment_at(p, i));
    }
}

/// Law (what the validator accepts): a non-empty path made only of
/// `[0-9a-zA-Z._/-]` with no whole segment `.` or `..` is accepted, so
/// `Report.pdf` and `nested/.hidden` pass; a path without a null byte
/// that holds any other byte is refused as using a disallowed
/// character; and a path within the charset that has a `.` or `..`
/// segment is refused as traversal.
pub proof fn validator_accepts_the_documented_paths(p: Seq<u8>)
    ensures
        (p.len() > 0 && (forall|k: int| 0 <= k < p.len() ==> in_documented_charset(#[trigger] p[k]))
            && !(exists|i: int, j: int| dot_segment_between(p, i, j))) ==> path_rejection(p) is None,
        (p.len() > 0 && !p.contains(0u8) && (exists|k: int| 0 <= k < p.len() && !in_documented_charset(#[trigger] p[k])))
            ==> path_rejection(p) matches Some(PathRejection::DisallowedCharacter),
        (p.len() > 0 && (forall|k: int| 0 <= k < p.len() ==> in_documented_charset(#[trigger] p[k]))
            && (exists|i: int, j: int| dot_segment_between(p, i, j))) ==> path_rejection(p) matches Some(PathRejection::Traversal),
{
    lemma_dot_segment_forms(p);
    if forall|k: int| 0 <= k < p.len() ==> in_documented_charset(#[trigger] p[k]) {
        assert forall|k: int| 0 <= k < p.len() implies allowed_path_byte(#[trigger] p[k]) by {
            assert(in_documented_charset(p[k]));
        }
        if p.contains(0u8) {
            let k = choose|k: int| 0 <= k < p.len() && p[k] == 0u8;
            assert(in_documented_charset(p[k]));
        }
    }
    if exists|k: int| 0 <= k < p.len() && !in_documented_charset(#[trigger] p[k]) {
        let k = choose|k: int| 0 <= k < p.len() && !in_documented_charset(#[trigger] p[k]);
        assert(!allowed_path_byte(p[k]));
    }
}

} // verus!
