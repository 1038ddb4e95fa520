//! The S3 backend: object keys under the configured `bucket_path`,
//! and the listing built from a `ListObjectsV2` reply.
//!
//! `bucket_path` is prepended to every key verbatim: no `/` is added
//! between it and the user path, so an operator who wants one ends
//! `bucket_path` with it. An empty `bucket_path` means no prefix.

use vstd::prelude::*;
use crate::backend::ListOptions;
use crate::backend::fs::rfc3339_text;
use crate::backend::page::{page, page_of, cursor_of, limit_of};
use crate::config::S3Config;
use crate::model::{FileEntry, StorageType};
use crate::text::{chars_of, has_prefix, strip_prefix_chars, decimal, zero_pad};

verus! {

/// The AWS SDK's S3 client (`aws_sdk_s3::Client`), carried as an
/// opaque value: nothing is claimed of it.
#[verifier::external_type_specification]
#[verifier::external_body]
pub struct ExS3Client(aws_sdk_s3::Client);

// ------------------------------------------------------------------
// Keys.
// ------------------------------------------------------------------

/// The full S3 key of the user path `path`: `bucket_path` then `path`,
/// nothing in between.
pub open spec fn object_key(bucket_path: Seq<char>, path: Seq<char>) -> Seq<char> {
    bucket_path + path
}

/// The user path a key stands for, when the key begins with
/// `bucket_path`.
pub open spec fn key_to_path(bucket_path: Seq<char>, key: Seq<char>) -> Option<Seq<char>> {
    if has_prefix(key, bucket_path) {
        Some(key.skip(bucket_path.len() as int))
    } else {
        None
    }
}

/// Stripping the prefix off a key built for `path` gives `path` back.
pub proof fn key_round_trip(bucket_path: Seq<char>, path: Seq<char>)
    ensures
        key_to_path(bucket_path, object_key(bucket_path, path)) == Some(path),
{
    let p = bucket_path;
    assert((p + path).take(p.len() as int) =~= p);
    assert((p + path).skip(p.len() as int) =~= path);
}

/// Law: a key is `bucket_path` immediately followed by the user path,
/// with nothing inserted between them (`prefix` and `a.txt` give
/// `prefixa.txt`).
pub proof fn key_is_bucket_path_then_path(bucket_path: Seq<char>, path: Seq<char>)
    ensures
        object_key(bucket_path, path).len() == bucket_path.len() + path.len(),
        forall|i: int| 0 <= i < bucket_path.len() ==> #[trigger] object_key(bucket_path, path)[i] == bucket_path[i],
        forall|j: int| 0 <= j < path.len() ==> object_key(bucket_path, path)[bucket_path.len() + j] == #[trigger] path[j],
{
}

/// Two user paths never share a key: the key determines the path.
pub proof fn keys_are_distinct(bucket_path: Seq<char>, a: Seq<char>, b: Seq<char>)
    requires
        a != b,
    ensures
        object_key(bucket_path, a) != object_key(bucket_path, b),
{
    key_round_trip(bucket_path, a);
    key_round_trip(bucket_path, b);
}

// ------------------------------------------------------------------
// Timestamps.
// ------------------------------------------------------------------

/// The text `aws_smithy_types::DateTime::fmt(Format::DateTime)` gives
/// for `secs` seconds and `nanos` nanoseconds after the epoch, `None`
/// when it refuses the instant.
pub uninterp spec fn smithy_datetime_text(secs: i64, nanos: u32) -> Option<Seq<char>>;

/// `s` without its trailing `'0'`s.
pub open spec fn trim_trailing_zeros(s: Seq<char>) -> Seq<char>
    decreases s.len(),
{
    if s.len() > 0 && s.last() == '0' {
        trim_trailing_zeros(s.drop_last())
    } else {
        s
    }
}

/// The sub-second part of an RFC-3339 timestamp: nothing for whole
/// seconds, else `.` and the six microsecond digits without trailing
/// zeros.
pub open spec fn micros_fraction(micros: nat) -> Seq<char> {
    if micros == 0 {
        Seq::empty()
    } else {
        "."@ + trim_trailing_zeros(zero_pad(decimal(micros), 6))
    }
}

/// RFC-3339 text of an instant at or after the epoch: date and time
/// to the second, the microseconds as a fraction when there are any,
/// then `Z`.
pub open spec fn epoch_time_text(secs: nat, nanos: nat) -> Seq<char> {
    rfc3339_text(secs).drop_last() + micros_fraction(nanos / 1000) + "Z"@
}

/// First second of 0001-01-01 and last second of 9999-12-31, UTC.
pub open spec fn rfc3339_first_sec() -> int {
    -62_135_596_800
}

pub open spec fn rfc3339_last_sec() -> int {
    253_402_300_799
}

/// An instant from the epoch to the end of 9999-12-31.
pub open spec fn from_epoch_in_range(secs: int) -> bool {
    0 <= secs <= rfc3339_last_sec()
}

/// Formats an instant the way the AWS SDK formats S3 timestamps
/// (`aws_smithy_types::DateTime::from_secs_and_nanos`, then
/// `fmt(Format::DateTime)`). Claimed of it: the result is the named
/// text; it is refused exactly outside the years 1..=9999; and for an
/// instant at or after the epoch it is `YYYY-MM-DDTHH:MM:SS`, the
/// microseconds as a fraction without trailing zeros when there are
/// any, then `Z`. The text before the epoch is left to the name.
#[verifier::external_body]
fn smithy_rfc3339(secs: i64, nanos: u32) -> (r: Option<String>)
    requires
        nanos < 1_000_000_000,
    ensures
        r matches Some(s) ==> smithy_datetime_text(secs, nanos) == Some(s@),
        r is None ==> smithy_datetime_text(secs, nanos) is None,
        r is None <==> (secs < rfc3339_first_sec() || secs > rfc3339_last_sec()),
        r matches Some(s) ==> (from_epoch_in_range(secs as int) ==> s@ == epoch_time_text(secs as nat, nanos as nat)),
{
    match aws_smithy_types::DateTime::from_secs_and_nanos(secs, nanos).fmt(
        aws_smithy_types::date_time::Format::DateTime,
    ) {
        Ok(s) => Some(s),
        Err(_) => None,
    }
}

/// The timestamp text listed for what the SDK formatter returned:
/// its text, or empty when it refused the instant.
pub fn timestamp_text(formatted: Option<String>) -> (r: String)
    ensures
        match formatted {
            Some(s) => r@ == s@,
            None => r@ == Seq::<char>::empty(),
        },
{
    match formatted {
        Some(s) => s,
        None => String::new(),
    }
}

// ------------------------------------------------------------------
// Listing.
// ------------------------------------------------------------------

/// An instant as the SDK holds it: seconds and sub-second nanoseconds
/// after the UNIX epoch. Listings report it to the whole second.
pub struct S3Timestamp {
    pub secs: i64,
    pub nanos: u32,
}

/// What a listing reads of one `ListObjectsV2` object.
pub struct S3Object {
    pub key: Option<String>,
    pub size: Option<i64>,
    pub last_modified: Option<S3Timestamp>,
}

/// The root-level name an object is listed under: its key with the
/// prefix stripped, when that is non-empty and holds no `/`.
pub open spec fn listed_name(bucket_path: Seq<char>, o: S3Object) -> Option<Seq<char>> {
    match o.key {
        None => None,
        Some(k) => match key_to_path(bucket_path, k@) {
            None => None,
            Some(n) => if n.len() == 0 || n.contains('/') {
                None
            } else {
                Some(n)
            },
        },
    }
}

/// The size an object is listed with: a missing or negative size is 0.
pub open spec fn listed_size(o: S3Object) -> u64 {
    match o.size {
        None => 0,
        Some(s) => if s < 0 {
            0
        } else {
            s as u64
        },
    }
}

/// The timestamp text an object is listed with: the SDK's RFC-3339
/// text of the instant's whole second (`YYYY-MM-DDTHH:MM:SSZ`, no
/// fraction), or empty when the SDK refuses to format it.
pub open spec fn listed_time(t: S3Timestamp) -> Seq<char> {
    match smithy_datetime_text(t.secs, 0) {
        Some(s) => s,
        None => Seq::empty(),
    }
}

/// The listed text of `t`: the second it falls in, formatted by the
/// SDK; from the epoch on, exactly `rfc3339_text` of that second.
fn whole_second_text(t: &S3Timestamp) -> (r: String)
    ensures
        r@ == listed_time(*t),
        from_epoch_in_range(t.secs as int) ==> r@ == rfc3339_text(t.secs as nat),
{
    let f = smithy_rfc3339(t.secs, 0);
    proof {
        if from_epoch_in_range(t.secs as int) {
            let x = rfc3339_text(t.secs as nat);
            reveal_strlit("Z");
            assert(x.last() == 'Z');
            assert(micros_fraction(0) =~= Seq::<char>::empty());
            assert(x.drop_last() + micros_fraction(0) + "Z"@ =~= x);
        }
    }
    timestamp_text(f)
}

/// `e` is the entry listed for object `o`, named `n`.
pub open spec fn entry_for(o: S3Object, n: Seq<char>, e: FileEntry) -> bool {
    &&& e.name@ == n
    &&& e.size == listed_size(o)
    &&& match (o.last_modified, e.last_modified) {
        (None, None) => true,
        (Some(t), Some(s)) => s@ == listed_time(t) && (from_epoch_in_range(t.secs as int) ==> s@
            == rfc3339_text(t.secs as nat)),
        _ => false,
    }
}

/// `es` lists, in order, one entry for each object that has a
/// root-level name.
pub open spec fn listing_of(bucket_path: Seq<char>, objects: Seq<S3Object>, es: Seq<FileEntry>) -> bool
    decreases objects.len(),
{
    if objects.len() == 0 {
        es.len() == 0
    } else {
        match listed_name(bucket_path, objects.last()) {
            None => listing_of(bucket_path, objects.drop_last(), es),
            Some(n) => es.len() > 0 && entry_for(objects.last(), n, es.last()) && listing_of(
                bucket_path,
                objects.drop_last(),
                es.drop_last(),
            ),
        }
    }
}

fn contains_slash(s: &str) -> (r: bool)
    ensures
        r == s@.contains('/'),
{
    let cs = chars_of(s);
    let mut i: usize = 0;
    while i < cs.len()
        invariant
            cs@ == s@,
            i <= cs@.len(),
            forall|k: int| 0 <= k < i ==> cs@[k] != '/',
        decreases cs@.len() - i,
    {
        if cs[i] == '/' {
            return true;
        }
        i = i + 1;
    }
    false
}

/// The S3 (or S3-compatible) backend: the SDK client, the bucket, and
/// the key prefix.
pub struct S3Backend {
    client: aws_sdk_s3::Client,
    bucket: String,
    bucket_path: String,
}

impl S3Backend {
    /// The bucket name.
    pub closed spec fn bucket_name(&self) -> Seq<char> {
        self.bucket@
    }

    /// The configured `bucket_path`.
    pub closed spec fn prefix_path(&self) -> Seq<char> {
        self.bucket_path@
    }

    /// The SDK client the backend talks through.
    pub closed spec fn sdk_client(&self) -> aws_sdk_s3::Client {
        self.client
    }

    /// The backend for `cfg`, talking through `client`.
    pub fn new(client: aws_sdk_s3::Client, cfg: &S3Config) -> (r: S3Backend)
        ensures
            r.sdk_client() == client,
            r.bucket_name() == cfg.bucket@,
            r.prefix_path() == cfg.bucket_path@,
    {
        S3Backend { client, bucket: cfg.bucket.clone(), bucket_path: cfg.bucket_path.clone() }
    }

    /// The storage type this backend serves.
    pub fn kind(&self) -> (k: StorageType)
        ensures
            k == StorageType::S3,
    {
        StorageType::S3
    }

    /// The bucket name.
    pub fn bucket(&self) -> (r: &str)
        ensures
            r@ == self.bucket_name(),
    {
        self.bucket.as_str()
    }

    /// The configured key prefix.
    pub fn bucket_path(&self) -> (r: &str)
        ensures
            r@ == self.prefix_path(),
    {
        self.bucket_path.as_str()
    }

    /// The SDK client.
    pub fn as_ref_client(&self) -> (r: &aws_sdk_s3::Client)
        ensures
            *r == self.sdk_client(),
    {
        &self.client
    }

    /// The prefix a listing asks S3 for: `bucket_path` as it stands,
    /// none when it is empty.
    pub fn list_prefix(&self) -> (r: Option<String>)
        ensures
            self.prefix_path().len() == 0 ==> r is None,
            self.prefix_path().len() > 0 ==> (r matches Some(p) && p@ == self.prefix_path()),
    {
        if self.bucket_path.as_str().unicode_len() == 0 {
            None
        } else {
            Some(self.bucket_path.clone())
        }
    }

    /// The full S3 key for the user path `path`: `bucket_path`
    /// prepended verbatim.
    pub fn key(&self, path: &str) -> (r: String)
        ensures
            r@ == object_key(self.prefix_path(), path@),
    {
        let mut out = self.bucket_path.clone();
        out.append(path);
        out
    }

    /// The user path a key stands for: the key without `bucket_path`,
    /// `None` when the key does not begin with it.
    pub fn strip_prefix(&self, key: &str) -> (r: Option<String>)
        ensures
            match key_to_path(self.prefix_path(), key@) {
                Some(p) => r matches Some(s) && s@ == p,
                None => r is None,
            },
    {
        strip_prefix_chars(key, self.bucket_path.as_str())
    }

    /// The root-level files of a `ListObjectsV2` reply, paginated: the
    /// objects named directly under `bucket_path`, each with its size
    /// (0 when missing or negative) and RFC-3339 timestamp to the
    /// second, then the page `opts` asks for, in name order.
    pub fn list_entries(&self, objects: &Vec<S3Object>, opts: &ListOptions) -> (r: Vec<FileEntry>)
        ensures
            exists|es: Seq<FileEntry>|
                listing_of(self.prefix_path(), objects@, es) && r@ == page_of(
                    es,
                    cursor_of(*opts),
                    limit_of(*opts),
                ),
    {
        let ghost bp = self.prefix_path();
        let mut all: Vec<FileEntry> = Vec::new();
        let mut i: usize = 0;
        assert(objects@.take(0) =~= Seq::<S3Object>::empty());
        while i < objects.len()
            invariant
                i <= objects@.len(),
                bp == self.prefix_path(),
                listing_of(bp, objects@.take(i as int), all@),
            decreases objects@.len() - i,
        {
            let o = &objects[i];
            let ghost before = objects@.take(i as int);
            assert(objects@.take(i + 1).drop_last() =~= before);
            assert(objects@.take(i + 1).last() == objects@[i as int]);
            let name = match &o.key {
                Some(k) => match self.strip_prefix(k.as_str()) {
                    Some(n) => if n.as_str().unicode_len() == 0 || contains_slash(n.as_str()) {
                        None
                    } else {
                        Some(n)
                    },
                    None => None,
                },
                None => None,
            };
            match name {
                Some(n) => {
                    let size: u64 = match o.size {
                        None => 0,
                        Some(s) => if s < 0 {
                            0
                        } else {
                            s as u64
                        },
                    };
                    let last_modified = match &o.last_modified {
                        Some(t) => Some(whole_second_text(t)),
                        None => None,
                    };
                    let e = FileEntry { name: n, size, last_modified };
                    let ghost prev = all@;
                    all.push(e);
                    assert(all@.drop_last() =~= prev);
                },
                None => {},
            }
            i = i + 1;
        }
        assert(objects@.take(objects@.len() as int) =~= objects@);
        let r = page(&all, opts);
        r
    }
}

} // verus!
