//! The local-filesystem backend: root-level listings and the
//! timestamps they report.

use vstd::prelude::*;
use crate::calendar::{civil_date, is_civil_date, day_number, is_leap_year, year_length, month_length, days_before_year, days_before_month, lemma_days_before_cycles, lemma_year_step, lemma_months_fill_year, lemma_civil_date_is};
use crate::text::{decimal, zero_pad, push_decimal_padded};
use crate::backend::ListOptions;
use crate::backend::page::{page, page_of, cursor_of, limit_of};
use crate::backend::root_path::{escapes_root, joined_path, is_ancestor, join_path, is_absolute_path};
use crate::config::FsConfig;
use crate::error::FerryError;
use crate::model::{FileEntry, StorageType};
use crate::text::chars_of;

verus! {

/// `YYYY-MM-DDTHH:MM:SSZ` for `secs` seconds after the UNIX epoch
/// (UTC, proleptic Gregorian; the year takes more digits past 9999).
pub open spec fn rfc3339_text(secs: nat) -> Seq<char> {
    let (y, mo, d) = civil_date(secs / 86400);
    let sod = secs % 86400;
    zero_pad(decimal(y as nat), 4) + "-"@ + zero_pad(decimal(mo as nat), 2) + "-"@ + zero_pad(
        decimal(d as nat),
        2,
    ) + "T"@ + zero_pad(decimal(sod / 3600), 2) + ":"@ + zero_pad(decimal((sod / 60) % 60), 2)
        + ":"@ + zero_pad(decimal(sod % 60), 2) + "Z"@
}

fn leap_year(y: u64) -> (r: bool)
    ensures
        r == is_leap_year(y as int),
{
    y % 4 == 0 && (y % 100 != 0 || y % 400 == 0)
}

fn days_in_year(y: u64) -> (r: u64)
    ensures
        r == year_length(y as int),
{
    if leap_year(y) { 366 } else { 365 }
}

fn days_in_month(y: u64, m: u64) -> (r: u64)
    ensures
        r == month_length(y as int, m as int),
{
    if m == 2 {
        if leap_year(y) { 29 } else { 28 }
    } else if m == 4 || m == 6 || m == 9 || m == 11 {
        30
    } else {
        31
    }
}

/// The calendar date `(year, month, day)` of the day `days` days after
/// 1970-01-01.
pub fn civil_from_days(days: u64) -> (r: (u64, u64, u64))
    ensures
        is_civil_date(r.0 as int, r.1 as int, r.2 as int),
        day_number(r.0 as int, r.1 as int, r.2 as int) == days,
        (r.0 as int, r.1 as int, r.2 as int) == civil_date(days as nat),
{
    let q = days / 146097;
    let r0 = days % 146097;
    assert(146097 * q + r0 == days) by (nonlinear_arith)
        requires q == days / 146097, r0 == days % 146097;
    assert(400 * q <= 400 * (u64::MAX / 146097)) by (nonlinear_arith)
        requires q == days / 146097;
    let y0: u64 = 1970 + 400 * q;
    proof {
        lemma_days_before_cycles(q as int);
    }
    let mut y = y0;
    let mut r = r0;
    while r >= days_in_year(y)
        invariant
            y0 == 1970 + 400 * q,
            y0 <= y,
            r0 < 146097,
            r + 365 * (y - y0) <= r0,
            400 * q <= 400 * (u64::MAX / 146097),
            days_before_year(y as int) + r == days,
        decreases r,
    {
        let len = days_in_year(y);
        proof {
            lemma_year_step(y as int);
        }
        r = r - len;
        y = y + 1;
    }
    let ry = r;
    let mut m: u64 = 1;
    proof {
        lemma_months_fill_year(y as int);
    }
    while r >= days_in_month(y, m)
        invariant
            1 <= m <= 12,
            r <= ry,
            ry < year_length(y as int),
            days_before_month(y as int, m as int) + r == ry,
            days_before_month(y as int, 12) + month_length(y as int, 12) == year_length(y as int),
        decreases r,
    {
        let len = days_in_month(y, m);
        if m == 12 {
            assert(false);
        }
        r = r - len;
        m = m + 1;
    }
    proof {
        lemma_civil_date_is(y as int, m as int, (r + 1) as int, days as nat);
    }
    (y, m, r + 1)
}

/// Formats UNIX epoch seconds as an ISO-8601 UTC timestamp,
/// `YYYY-MM-DDTHH:MM:SSZ`.
pub fn format_rfc3339(secs: u64) -> (s: String)
    ensures
        s@ == rfc3339_text(secs as nat),
{
    let days = secs / 86_400;
    let secs_of_day = secs % 86_400;
    let (y, m, d) = civil_from_days(days);
    let mut out = String::new();
    push_decimal_padded(&mut out, y, 4);
    out.append("-");
    push_decimal_padded(&mut out, m, 2);
    out.append("-");
    push_decimal_padded(&mut out, d, 2);
    out.append("T");
    push_decimal_padded(&mut out, secs_of_day / 3600, 2);
    out.append(":");
    push_decimal_padded(&mut out, (secs_of_day / 60) % 60, 2);
    out.append(":");
    push_decimal_padded(&mut out, secs_of_day % 60, 2);
    out.append("Z");
    out
}

// ------------------------------------------------------------------
// The backend.
// ------------------------------------------------------------------

/// The message of a refused path that resolves outside the root; it
/// never echoes the caller's input.
pub open spec fn escape_message() -> Seq<char> {
    "resolved path escapes fs root"@
}

/// The message of a refused symlink.
pub open spec fn symlink_message() -> Seq<char> {
    "path is a symlink; symlinks are not permitted"@
}

fn symlink_refusal() -> (e: FerryError)
    ensures
        e matches FerryError::InvalidPath(m) && m@ == symlink_message(),
{
    proof {
        reveal_strlit("path is a symlink; symlinks are not permitted");
    }
    FerryError::InvalidPath(String::from_str("path is a symlink; symlinks are not permitted"))
}

/// What `symlink_metadata` reported of a resolved path.
pub enum LinkStatus {
    /// The path is a symlink.
    Symlink,
    /// The path exists and is not a symlink.
    NotSymlink,
    /// Nothing exists there yet.
    Missing,
    /// The lookup failed otherwise, with this error text.
    Unreadable(String),
}

/// Why opening a resolved path failed.
pub enum OpenFailure {
    /// No such file, with the error text.
    NotFound(String),
    /// `O_NOFOLLOW` met a symlink (`ELOOP`).
    SymlinkLoop,
    /// Any other error, with its text.
    Other(String),
}

/// The verdict on a resolved path from what `symlink_metadata` said:
/// a symlink is refused, a missing path is fine (a write may create
/// it), any other lookup failure is an I/O error.
pub fn check_link(status: LinkStatus) -> (r: Result<(), FerryError>)
    ensures
        match status {
            LinkStatus::Symlink => r matches Err(FerryError::InvalidPath(m)) && m@ == symlink_message(),
            LinkStatus::NotSymlink => r is Ok,
            LinkStatus::Missing => r is Ok,
            LinkStatus::Unreadable(t) => r matches Err(FerryError::Io(m)) && m@ == t@,
        },
{
    match status {
        LinkStatus::Symlink => Err(symlink_refusal()),
        LinkStatus::NotSymlink => Ok(()),
        LinkStatus::Missing => Ok(()),
        LinkStatus::Unreadable(t) => Err(FerryError::Io(t)),
    }
}

/// The error of a failed open for reading: a missing file is
/// `NotFound` with the caller's path, a symlink met by `O_NOFOLLOW` is
/// refused, anything else is an I/O error.
pub fn read_open_error(f: OpenFailure, path: &str) -> (e: FerryError)
    ensures
        match f {
            OpenFailure::NotFound(_) => e matches FerryError::NotFound(p) && p@ == path@,
            OpenFailure::SymlinkLoop => e matches FerryError::InvalidPath(m) && m@ == symlink_message(),
            OpenFailure::Other(t) => e matches FerryError::Io(m) && m@ == t@,
        },
{
    match f {
        OpenFailure::NotFound(_) => FerryError::NotFound(path.to_owned()),
        OpenFailure::SymlinkLoop => symlink_refusal(),
        OpenFailure::Other(t) => FerryError::Io(t),
    }
}

/// The error of a failed open for writing: a symlink met by
/// `O_NOFOLLOW` is refused, anything else is an I/O error.
pub fn write_open_error(f: OpenFailure) -> (e: FerryError)
    ensures
        match f {
            OpenFailure::NotFound(t) => e matches FerryError::Io(m) && m@ == t@,
            OpenFailure::SymlinkLoop => e matches FerryError::InvalidPath(m) && m@ == symlink_message(),
            OpenFailure::Other(t) => e matches FerryError::Io(m) && m@ == t@,
        },
{
    match f {
        OpenFailure::NotFound(t) => FerryError::Io(t),
        OpenFailure::SymlinkLoop => symlink_refusal(),
        OpenFailure::Other(t) => FerryError::Io(t),
    }
}

/// Metadata of a directory entry, read without following links.
pub struct EntryMeta {
    pub is_symlink: bool,
    pub is_file: bool,
    pub len: u64,
    /// Modification time in whole seconds after the epoch, when known
    /// and not before it.
    pub modified_secs: Option<u64>,
}

/// One entry of the data directory: its name, and its metadata when
/// it could be read.
pub struct DirEntryInfo {
    pub name: String,
    pub meta: Option<EntryMeta>,
}

/// `e` is the entry listed for the regular file `d`.
pub open spec fn fs_entry_for(d: DirEntryInfo, e: FileEntry) -> bool {
    match d.meta {
        None => false,
        Some(m) => {
            &&& e.name@ == d.name@
            &&& e.size == m.len
            &&& match (m.modified_secs, e.last_modified) {
                (None, None) => true,
                (Some(t), Some(s)) => s@ == rfc3339_text(t as nat),
                _ => false,
            }
        },
    }
}

/// A directory entry is listed when its metadata was read and it is a
/// regular file, not a symlink.
pub open spec fn fs_listed(d: DirEntryInfo) -> bool {
    d.meta matches Some(m) && !m.is_symlink && m.is_file
}

/// `es` lists, in order, one entry for each listed directory entry.
pub open spec fn fs_listing_of(ds: Seq<DirEntryInfo>, es: Seq<FileEntry>) -> bool
    decreases ds.len(),
{
    if ds.len() == 0 {
        es.len() == 0
    } else if fs_listed(ds.last()) {
        es.len() > 0 && fs_entry_for(ds.last(), es.last()) && fs_listing_of(ds.drop_last(), es.drop_last())
    } else {
        fs_listing_of(ds.drop_last(), es)
    }
}

/// The local-filesystem backend, rooted at the data directory.
pub struct FsBackend {
    root: String,
}

impl FsBackend {
    /// The data directory every operation is rooted at.
    pub closed spec fn root_path(&self) -> Seq<char> {
        self.root@
    }

    /// The backend rooted at `cfg.data_directory` (the caller creates
    /// the directory).
    pub fn new(cfg: &FsConfig) -> (r: FsBackend)
        ensures
            r.root_path() == cfg.data_directory@,
    {
        FsBackend { root: cfg.data_directory.clone() }
    }

    /// The data directory.
    pub fn root(&self) -> (r: &str)
        ensures
            r@ == self.root_path(),
    {
        self.root.as_str()
    }

    /// The storage type this backend serves.
    pub fn kind(&self) -> (k: StorageType)
        ensures
            k == StorageType::Fs,
    {
        StorageType::Fs
    }

    /// Joins `path` onto the root, refusing a result that has neither
    /// the root nor `canonical_root` (the root's canonical form, or the
    /// root itself when that is unknown) among its ancestors. The
    /// refusal does not echo `path`.
    pub fn resolve(&self, canonical_root: &str, path: &str) -> (r: Result<String, FerryError>)
        ensures
            r is Ok <==> !escapes_root(self.root_path(), canonical_root@, path@),
            r matches Ok(j) ==> j@ == joined_path(self.root_path(), path@),
            r matches Err(e) ==> (e matches FerryError::InvalidPath(m) && m@ == escape_message()),
    {
        let pc = chars_of(path);
        let absolute = pc.len() > 0 && pc[0] == '/';
        if absolute && !is_ancestor(self.root.as_str(), path) && !is_ancestor(canonical_root, path) {
            proof {
                reveal_strlit("resolved path escapes fs root");
            }
            return Err(FerryError::InvalidPath(String::from_str("resolved path escapes fs root")));
        }
        Ok(join_path(self.root.as_str(), path))
    }

    /// The listing of the data directory from its entries: the regular
    /// files (symlinks, directories and entries whose metadata could
    /// not be read are skipped), each with its size and RFC-3339
    /// modification time, then the page `opts` asks for, in name order.
    pub fn list(&self, dir: &Vec<DirEntryInfo>, opts: &ListOptions) -> (r: Vec<FileEntry>)
        ensures
            exists|es: Seq<FileEntry>| fs_listing_of(dir@, es) && r@ == page_of(es, cursor_of(*opts), limit_of(*opts)),
    {
        let mut all: Vec<FileEntry> = Vec::new();
        let mut i: usize = 0;
        assert(dir@.take(0) =~= Seq::<DirEntryInfo>::empty());
        while i < dir.len()
            invariant
                i <= dir@.len(),
                fs_listing_of(dir@.take(i as int), all@),
            decreases dir@.len() - i,
        {
            let d = &dir[i];
            assert(dir@.take(i + 1).drop_last() =~= dir@.take(i as int));
            assert(dir@.take(i + 1).last() == dir@[i as int]);
            match &d.meta {
                Some(m) => {
                    if !m.is_symlink && m.is_file {
                        let last_modified = match m.modified_secs {
                            Some(t) => Some(format_rfc3339(t)),
                            None => None,
                        };
                        let e = FileEntry { name: d.name.clone(), size: m.len, last_modified };
                        let ghost prev = all@;
                        all.push(e);
                        assert(all@.drop_last() =~= prev);
                    }
                },
                None => {},
            }
            i = i + 1;
        }
        assert(dir@.take(dir@.len() as int) =~= dir@);
        page(&all, opts)
    }
}

} // verus!
