//! Wire-level data model: storage kinds, listed entries and the
//! request / response shapes of the HTTP surface.

use vstd::prelude::*;

verus! {

/// The two storage backends a transfer can name.
#[derive(Debug, Clone, Copy, PartialEq, Eq, Structural)]
pub enum StorageType {
    Fs,
    S3,
}

/// The wire name of a storage type (`FS` / `S3`).
pub open spec fn storage_wire_name(t: StorageType) -> Seq<char> {
    match t {
        StorageType::Fs => "FS"@,
        StorageType::S3 => "S3"@,
    }
}

/// The variant name as `{:?}` prints it (`Fs` / `S3`).
pub open spec fn storage_debug_name(t: StorageType) -> Seq<char> {
    match t {
        StorageType::Fs => "Fs"@,
        StorageType::S3 => "S3"@,
    }
}

impl StorageType {
    /// The wire name: `FS` for the filesystem, `S3` for the bucket.
    pub fn as_str(&self) -> (s: &'static str)
        ensures
            s@ == storage_wire_name(*self),
    {
        match self {
            StorageType::Fs => "FS",
            StorageType::S3 => "S3",
        }
    }

    /// The variant name as `{:?}` renders it.
    pub fn debug_name(&self) -> (s: &'static str)
        ensures
            s@ == storage_debug_name(*self),
    {
        match self {
            StorageType::Fs => "Fs",
            StorageType::S3 => "S3",
        }
    }
}

/// Metadata of one file as reported by a backend listing.
pub struct FileEntry {
    pub name: String,
    pub size: u64,
    /// ISO-8601 UTC last-modified time, when the backend reports one.
    pub last_modified: Option<String>,
}

/// Pagination metadata of a listing page.
pub struct ListFilesMeta {
    pub count: usize,
    /// Name of the last entry when the page is full; resume with
    /// `startAfter=<nextCursor>`.
    pub next_cursor: Option<String>,
}

/// Response of `GET /v1/files`: `{data, meta}`.
pub struct ListFilesResponse {
    pub data: Vec<FileEntry>,
    pub meta: ListFilesMeta,
}

/// Query of `GET /v1/files`.
pub struct ListFilesQuery {
    pub storage_type: StorageType,
    pub limit: Option<usize>,
    pub start_after: Option<String>,
}

/// Body of `POST /v1/files/copy`.
pub struct CopyFileRequest {
    pub source_storage_type: StorageType,
    pub source_file_path: String,
    pub destination_storage_type: StorageType,
    pub destination_file_path: String,
}

} // verus!
