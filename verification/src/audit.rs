//! The audit record of a completed copy. Paths never appear in it:
//! each is replaced by the first 12 hex digits of its SHA-256, so
//! tenant identifiers in file names stay out of log storage.

use vstd::prelude::*;
use vstd::string::StringSliceAdditionalSpecFns;
use sha2::Digest;
use crate::model::{CopyFileRequest, StorageType};
use crate::text::{hex_bytes, hex_string, is_hex_char, lemma_hex_bytes_is_hex};

verus! {

/// The SHA-256 digest of `data`.
pub uninterp spec fn sha256_digest(data: Seq<u8>) -> Seq<u8>;

/// SHA-256 of a byte slice (`<sha2::Sha256 as Digest>::digest`).
/// Claimed: the named digest of the bytes, 32 bytes long.
#[verifier::external_body]
fn sha256(data: &[u8]) -> (r: Vec<u8>)
    ensures
        r@ == sha256_digest(data@),
        r@.len() == 32,
{
    sha2::Sha256::digest(data).to_vec()
}

/// Bytes of the digest kept in a path hash.
pub const PATH_HASH_BYTES: usize = 6;

/// The hash logged for a path: the lowercase hex of the first six
/// bytes of the SHA-256 of its UTF-8 text.
pub open spec fn path_hash_text(path: Seq<char>) -> Seq<char> {
    hex_bytes(sha256_digest(vstd::utf8::encode_utf8(path)).take(PATH_HASH_BYTES as int))
}

/// The text kept of a digest: the lowercase hex of its first six bytes.
pub fn digest_prefix_hex(digest: &Vec<u8>) -> (r: String)
    requires
        digest@.len() >= PATH_HASH_BYTES,
    ensures
        r@ == hex_bytes(digest@.take(PATH_HASH_BYTES as int)),
        r@.len() == 12,
        forall|i: int| 0 <= i < 12 ==> is_hex_char(#[trigger] r@[i]),
{
    let mut first: Vec<u8> = Vec::new();
    let mut i: usize = 0;
    while i < PATH_HASH_BYTES
        invariant
            digest@.len() >= PATH_HASH_BYTES,
            i <= PATH_HASH_BYTES,
            first@ == digest@.take(i as int),
        decreases PATH_HASH_BYTES - i,
    {
        first.push(digest[i]);
        assert(digest@.take(i + 1) =~= digest@.take(i as int).push(digest@[i as int]));
        i = i + 1;
    }
    proof {
        lemma_hex_bytes_is_hex(first@);
    }
    hex_string(first.as_slice())
}

/// The logged stand-in for `path`: 12 hex digits of its SHA-256,
/// whatever the path.
pub fn path_hash(path: &str) -> (r: String)
    ensures
        r@ == path_hash_text(path@),
        r@.len() == 12,
        forall|i: int| 0 <= i < 12 ==> is_hex_char(#[trigger] r@[i]),
{
    let d = sha256(path.as_bytes());
    digest_prefix_hex(&d)
}

/// The fields of the `file_transfer_completed` line logged after a
/// successful copy (the duration and trace id are added by the caller).
pub struct CopyAudit {
    pub source: StorageType,
    pub destination: StorageType,
    pub source_path_hash: String,
    pub destination_path_hash: String,
    pub bytes: u64,
}

/// The audit fields of a completed copy of `bytes` bytes: the storage
/// types as requested and the hashes of both paths.
pub fn copy_audit(req: &CopyFileRequest, bytes: u64) -> (r: CopyAudit)
    ensures
        r.source == req.source_storage_type,
        r.destination == req.destination_storage_type,
        r.source_path_hash@ == path_hash_text(req.source_file_path@),
        r.destination_path_hash@ == path_hash_text(req.destination_file_path@),
        r.bytes == bytes,
{
    CopyAudit {
        source: req.source_storage_type,
        destination: req.destination_storage_type,
        source_path_hash: path_hash(req.source_file_path.as_str()),
        destination_path_hash: path_hash(req.destination_file_path.as_str()),
        bytes,
    }
}

} // verus!
