//! The decisions of the HTTP handlers: which backend serves a request,
//! which limit and cursor a listing uses, what a listing page reports,
//! and when the OpenAPI summary is served.

use vstd::prelude::*;
use vstd::string::StringSliceAdditionalSpecFns;
use crate::backend::{Backends, ListOptions, DEFAULT_LIST_LIMIT, MAX_LIST_LIMIT};
use crate::config::AppConfig;
use crate::error::FerryError;
use crate::model::{CopyFileRequest, FileEntry, ListFilesMeta, ListFilesQuery, ListFilesResponse, StorageType};
use crate::validate::{validate_path, path_rejection, rejection_text};

verus! {

/// The limit a listing request resolves to: the default when absent
/// or zero, refused above `MAX_LIST_LIMIT`.
pub open spec fn list_limit(limit: Option<usize>) -> Option<usize> {
    match limit {
        None => Some(DEFAULT_LIST_LIMIT),
        Some(n) => if n == 0 {
            Some(DEFAULT_LIST_LIMIT)
        } else if n > MAX_LIST_LIMIT {
            None
        } else {
            Some(n)
        },
    }
}

/// Resolves the requested page size: absent or zero means
/// `DEFAULT_LIST_LIMIT`; above `MAX_LIST_LIMIT` is refused with
/// `ListLimitTooLarge`.
pub fn resolve_list_limit(limit: Option<usize>) -> (r: Result<usize, FerryError>)
    ensures
        match list_limit(limit) {
            Some(n) => r == Ok::<usize, FerryError>(n),
            None => r matches Err(FerryError::ListLimitTooLarge { cap }) && cap == MAX_LIST_LIMIT,
        },
{
    match limit {
        None => Ok(DEFAULT_LIST_LIMIT),
        Some(n) => if n == 0 {
            Ok(DEFAULT_LIST_LIMIT)
        } else if n > MAX_LIST_LIMIT {
            Err(FerryError::ListLimitTooLarge { cap: MAX_LIST_LIMIT })
        } else {
            Ok(n)
        },
    }
}

/// `e` is the refusal `validate_path` gives for the path `p`: the
/// first failing check, named by its text.
pub open spec fn path_refusal_is(p: Seq<char>, e: FerryError) -> bool {
    match path_rejection(vstd::utf8::encode_utf8(p)) {
        Some(why) => e matches FerryError::InvalidPath(m) && m@ == rejection_text(why),
        None => false,
    }
}

/// The backend asked for is available.
pub open spec fn backend_available<B>(backends: Backends<B>, kind: StorageType) -> bool {
    kind == StorageType::Fs || backends.s3 is Some
}

/// Plans `GET /v1/files`: the backend to list, then the options to
/// list with. Refused, in this order, when the backend is not
/// configured (503), the limit is over the cap (413), or the cursor is
/// not a valid path (400).
pub fn plan_list<'a, B>(backends: &'a Backends<B>, q: &ListFilesQuery) -> (r: Result<(&'a B, ListOptions), FerryError>)
    ensures
        !backend_available(*backends, q.storage_type) ==> (r matches Err(FerryError::BackendNotConfigured(t)) && t == StorageType::S3),
        backend_available(*backends, q.storage_type) && list_limit(q.limit) is None ==> (r matches Err(FerryError::ListLimitTooLarge { cap }) && cap == MAX_LIST_LIMIT),
        (backend_available(*backends, q.storage_type) && list_limit(q.limit) is Some) ==> match q.start_after {
            Some(c) => path_rejection(vstd::utf8::encode_utf8(c@)) is Some ==> (r matches Err(e) && path_refusal_is(c@, e)),
            None => true,
        },
        r is Ok <==> (backend_available(*backends, q.storage_type) && list_limit(q.limit) is Some
            && (q.start_after matches Some(c) ==> path_rejection(vstd::utf8::encode_utf8(c@)) is None)),
        r matches Ok((b, opts)) ==> {
            &&& (q.storage_type == StorageType::Fs ==> *b == backends.fs)
            &&& (q.storage_type == StorageType::S3 ==> backends.s3 == Some(*b))
            &&& opts.limit == list_limit(q.limit)
            &&& match q.start_after {
                Some(c) => opts.start_after matches Some(d) && d@ == c@,
                None => opts.start_after is None,
            }
        },
{
    let backend = match backends.pick(q.storage_type) {
        Ok(b) => b,
        Err(e) => return Err(e),
    };
    let limit = match resolve_list_limit(q.limit) {
        Ok(n) => n,
        Err(e) => return Err(e),
    };
    let start_after = match &q.start_after {
        Some(c) => {
            match validate_path(c.as_str()) {
                Ok(()) => {},
                Err(e) => return Err(e),
            }
            Some(c.clone())
        },
        None => None,
    };
    Ok((backend, ListOptions { limit: Some(limit), start_after }))
}

/// Assembles the listing reply: the entries, their count, and a
/// `nextCursor` naming the last entry when the page came back full.
pub fn list_response(files: Vec<FileEntry>, limit: usize) -> (r: ListFilesResponse)
    ensures
        r.data@ == files@,
        r.meta.count == files@.len(),
        (files@.len() == limit && limit > 0) ==> (r.meta.next_cursor matches Some(c) && c@ == files@.last().name@),
        !(files@.len() == limit && limit > 0) ==> r.meta.next_cursor is None,
{
    let count = files.len();
    let next_cursor = if count == limit && count > 0 {
        Some(files[count - 1].name.clone())
    } else {
        None
    };
    ListFilesResponse { data: files, meta: ListFilesMeta { count, next_cursor } }
}

/// Plans `POST /v1/files/copy`: the source and destination backends.
/// Refused, in this order, when both sides name the same storage type,
/// when the source path or the destination path is invalid, or when a
/// side's backend is not configured.
pub fn plan_copy<'a, B>(backends: &'a Backends<B>, req: &CopyFileRequest) -> (r: Result<(&'a B, &'a B), FerryError>)
    ensures
        req.source_storage_type == req.destination_storage_type ==> r matches Err(FerryError::SameStorageType),
        r is Ok <==> {
            &&& req.source_storage_type != req.destination_storage_type
            &&& path_rejection(vstd::utf8::encode_utf8(req.source_file_path@)) is None
            &&& path_rejection(vstd::utf8::encode_utf8(req.destination_file_path@)) is None
            &&& backend_available(*backends, req.source_storage_type)
            &&& backend_available(*backends, req.destination_storage_type)
        },
        req.source_storage_type != req.destination_storage_type && path_rejection(vstd::utf8::encode_utf8(req.source_file_path@)) is Some
            ==> (r matches Err(e) && path_refusal_is(req.source_file_path@, e)),
        req.source_storage_type != req.destination_storage_type && path_rejection(vstd::utf8::encode_utf8(req.source_file_path@)) is None
            && path_rejection(vstd::utf8::encode_utf8(req.destination_file_path@)) is Some
            ==> (r matches Err(e) && path_refusal_is(req.destination_file_path@, e)),
        (req.source_storage_type != req.destination_storage_type
            && path_rejection(vstd::utf8::encode_utf8(req.source_file_path@)) is None
            && path_rejection(vstd::utf8::encode_utf8(req.destination_file_path@)) is None
            && !(backend_available(*backends, req.source_storage_type) && backend_available(*backends, req.destination_storage_type)))
            ==> (r matches Err(FerryError::BackendNotConfigured(t)) && t == StorageType::S3),
        r matches Ok((src, dst)) ==> {
            &&& (req.source_storage_type == StorageType::Fs ==> *src == backends.fs && backends.s3 == Some(*dst))
            &&& (req.source_storage_type == StorageType::S3 ==> *dst == backends.fs && backends.s3 == Some(*src))
        },
{
    if req.source_storage_type == req.destination_storage_type {
        return Err(FerryError::SameStorageType);
    }
    match validate_path(req.source_file_path.as_str()) {
        Ok(()) => {},
        Err(e) => return Err(e),
    }
    match validate_path(req.destination_file_path.as_str()) {
        Ok(()) => {},
        Err(e) => return Err(e),
    }
    let src = match backends.pick(req.source_storage_type) {
        Ok(b) => b,
        Err(e) => return Err(e),
    };
    let dst = match backends.pick(req.destination_storage_type) {
        Ok(b) => b,
        Err(e) => return Err(e),
    };
    Ok((src, dst))
}

/// `GET /api` serves the OpenAPI summary only when the admin gate is
/// on and documentation is enabled; otherwise it is a 404.
pub fn api_doc_visible(cfg: &AppConfig) -> (r: bool)
    ensures
        r == (cfg.security.admin_enabled && cfg.documentation_enabled),
{
    cfg.security.admin_enabled && cfg.documentation_enabled
}

} // verus!
