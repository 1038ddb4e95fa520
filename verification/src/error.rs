//! The error type of every request path, its HTTP status and stable
//! machine code, and the clipping of user-controlled text before it
//! lands in a response body or a log line.

use vstd::prelude::*;
use crate::model::{StorageType, storage_debug_name};
use crate::text::{decimal, push_decimal};

verus! {

/// Cap, in characters, on any user-controlled string that lands in a
/// response body or a log line.
pub const MAX_USER_MESSAGE_LEN: usize = 256;

/// `s` unchanged when it fits in `MAX_USER_MESSAGE_LEN` characters;
/// otherwise its first `MAX_USER_MESSAGE_LEN - 3` characters followed
/// by `...`.
pub open spec fn clipped(s: Seq<char>) -> Seq<char> {
    if s.len() <= MAX_USER_MESSAGE_LEN {
        s
    } else {
        s.take(MAX_USER_MESSAGE_LEN - 3) + "..."@
    }
}

/// Truncates a user-controlled string to at most
/// `MAX_USER_MESSAGE_LEN` characters, at a character boundary, ending
/// in `...` when anything was cut.
pub fn clip_user_message(s: &str) -> (r: String)
    ensures
        r@ == clipped(s@),
{
    let count = s.unicode_len();
    if count <= MAX_USER_MESSAGE_LEN {
        return String::from_str(s);
    }
    let keep = MAX_USER_MESSAGE_LEN - 3;
    let mut out = String::from_str(s.substring_char(0, keep));
    out.append("...");
    out
}

/// Law: the clipped text never exceeds the cap, whatever the input size.
pub proof fn clip_is_bounded(s: Seq<char>)
    ensures
        clipped(s).len() <= MAX_USER_MESSAGE_LEN,
{
    reveal_strlit("...");
}

/// Law: text within the cap passes through unchanged, and longer text
/// comes out at exactly the cap, as a prefix of the input followed by
/// the `...` marker.
pub proof fn clip_keeps_prefix(s: Seq<char>)
    ensures
        s.len() <= MAX_USER_MESSAGE_LEN ==> clipped(s) == s,
        s.len() > MAX_USER_MESSAGE_LEN ==> {
            &&& clipped(s).len() == MAX_USER_MESSAGE_LEN
            &&& clipped(s).take(MAX_USER_MESSAGE_LEN - 3) == s.take(MAX_USER_MESSAGE_LEN - 3)
            &&& clipped(s).skip(MAX_USER_MESSAGE_LEN - 3) == "..."@
        },
{
    reveal_strlit("...");
    if s.len() > MAX_USER_MESSAGE_LEN {
        let c = clipped(s);
        assert(c.take(MAX_USER_MESSAGE_LEN - 3) =~= s.take(MAX_USER_MESSAGE_LEN - 3));
        assert(c.skip(MAX_USER_MESSAGE_LEN - 3) =~= "..."@);
    }
}

/// Law: clipping twice is clipping once.
pub proof fn clip_is_idempotent(s: Seq<char>)
    ensures
        clipped(clipped(s)) == clipped(s),
{
    clip_is_bounded(s);
}

/// Every failure a request can end in.
#[derive(Debug)]
pub enum FerryError {
    InvalidPath(String),
    SameStorageType,
    BackendNotConfigured(StorageType),
    /// The inner path is for the operator log only; the message never
    /// echoes it.
    NotFound(String),
    TransferTooLarge { cap: u64 },
    ListLimitTooLarge { cap: usize },
    BadQuery(String),
    BadBody(String),
    BodyTooLarge { cap: usize },
    BodyReadTimeout,
    Upstream(String),
    /// An I/O failure, carried as its rendered text.
    Io(String),
    Internal(String),
}

/// The HTTP status of each error.
pub open spec fn error_status(e: FerryError) -> u16 {
    match e {
        FerryError::InvalidPath(_) => 400,
        FerryError::SameStorageType => 400,
        FerryError::BadQuery(_) => 400,
        FerryError::BadBody(_) => 400,
        FerryError::BackendNotConfigured(_) => 503,
        FerryError::NotFound(_) => 404,
        FerryError::TransferTooLarge { .. } => 413,
        FerryError::ListLimitTooLarge { .. } => 413,
        FerryError::BodyTooLarge { .. } => 413,
        FerryError::BodyReadTimeout => 408,
        FerryError::Upstream(_) => 502,
        FerryError::Io(_) => 500,
        FerryError::Internal(_) => 500,
    }
}

/// The stable machine-readable code of each error.
pub open spec fn error_code(e: FerryError) -> Seq<char> {
    match e {
        FerryError::InvalidPath(_) => "invalid_path"@,
        FerryError::SameStorageType => "same_storage_type"@,
        FerryError::BackendNotConfigured(_) => "backend_not_configured"@,
        FerryError::NotFound(_) => "not_found"@,
        FerryError::TransferTooLarge { .. } => "transfer_too_large"@,
        FerryError::ListLimitTooLarge { .. } => "list_limit_too_large"@,
        FerryError::BadQuery(_) => "bad_query"@,
        FerryError::BadBody(_) => "bad_body"@,
        FerryError::BodyTooLarge { .. } => "body_too_large"@,
        FerryError::BodyReadTimeout => "body_read_timeout"@,
        FerryError::Upstream(_) => "upstream_error"@,
        FerryError::Io(_) => "io_error"@,
        FerryError::Internal(_) => "internal_error"@,
    }
}

/// The human-readable text of each error (what `Display` would print).
pub open spec fn error_message(e: FerryError) -> Seq<char> {
    match e {
        FerryError::InvalidPath(m) => "path is not valid: "@ + m@,
        FerryError::SameStorageType => "source and destination storage types must differ"@,
        FerryError::BackendNotConfigured(t) => "storage backend "@ + storage_debug_name(t)
            + " is not configured"@,
        FerryError::NotFound(_) => "file not found"@,
        FerryError::TransferTooLarge { cap } => "transfer exceeded configured size cap of "@
            + decimal(cap as nat) + " bytes"@,
        FerryError::ListLimitTooLarge { cap } => "requested list limit exceeds server cap of "@
            + decimal(cap as nat),
        FerryError::BadQuery(m) => "invalid query string: "@ + m@,
        FerryError::BadBody(m) => "invalid request body: "@ + m@,
        FerryError::BodyTooLarge { cap } => "request body exceeds server cap of "@ + decimal(
            cap as nat,
        ) + " bytes"@,
        FerryError::BodyReadTimeout => "timed out waiting for request body"@,
        FerryError::Upstream(m) => "upstream storage error: "@ + m@,
        FerryError::Io(m) => "i/o error: "@ + m@,
        FerryError::Internal(m) => "internal error: "@ + m@,
    }
}

/// Law: every error is answered with a 4xx or 5xx status and a
/// message of at most `MAX_USER_MESSAGE_LEN` characters, whatever the
/// input that caused it.
pub proof fn error_reply_is_bounded(e: FerryError)
    ensures
        400 <= error_status(e) < 600,
        clipped(error_message(e)).len() <= MAX_USER_MESSAGE_LEN,
{
    clip_is_bounded(error_message(e));
}

/// Law: a missing file is answered with the same fixed text whatever
/// path was asked for; the path is never echoed to the caller.
pub proof fn not_found_does_not_echo(p: String, q: String)
    ensures
        clipped(error_message(FerryError::NotFound(p))) == "file not found"@,
        clipped(error_message(FerryError::NotFound(p))) == clipped(error_message(FerryError::NotFound(q))),
{
    reveal_strlit("file not found");
}

/// The parts of the structured `{error, message}` reply of an error.
pub struct ErrorReply {
    pub status: u16,
    pub code: &'static str,
    /// The error text, clipped to `MAX_USER_MESSAGE_LEN` characters.
    pub message: String,
}

/// How an error reply is logged for the operator.
#[derive(Debug)]
pub enum ErrorLog {
    /// WARN naming the requested path, clipped.
    NotFound(String),
    /// WARN with the clipped message: a server-side failure.
    ServerError,
    /// DEBUG with the clipped message: a client-side rejection.
    ClientError,
}

impl FerryError {
    /// The HTTP status of this error.
    pub fn status(&self) -> (s: u16)
        ensures
            s == error_status(*self),
    {
        match self {
            FerryError::InvalidPath(_) | FerryError::SameStorageType | FerryError::BadQuery(_)
            | FerryError::BadBody(_) => 400,
            FerryError::BackendNotConfigured(_) => 503,
            FerryError::NotFound(_) => 404,
            FerryError::TransferTooLarge { .. } | FerryError::ListLimitTooLarge { .. }
            | FerryError::BodyTooLarge { .. } => 413,
            FerryError::BodyReadTimeout => 408,
            FerryError::Upstream(_) => 502,
            FerryError::Io(_) | FerryError::Internal(_) => 500,
        }
    }

    /// The stable machine-readable code of this error.
    pub fn code(&self) -> (c: &'static str)
        ensures
            c@ == error_code(*self),
    {
        match self {
            FerryError::InvalidPath(_) => "invalid_path",
            FerryError::SameStorageType => "same_storage_type",
            FerryError::BackendNotConfigured(_) => "backend_not_configured",
            FerryError::NotFound(_) => "not_found",
            FerryError::TransferTooLarge { .. } => "transfer_too_large",
            FerryError::ListLimitTooLarge { .. } => "list_limit_too_large",
            FerryError::BadQuery(_) => "bad_query",
            FerryError::BadBody(_) => "bad_body",
            FerryError::BodyTooLarge { .. } => "body_too_large",
            FerryError::BodyReadTimeout => "body_read_timeout",
            FerryError::Upstream(_) => "upstream_error",
            FerryError::Io(_) => "io_error",
            FerryError::Internal(_) => "internal_error",
        }
    }

    /// The human-readable text of this error.
    pub fn message(&self) -> (m: String)
        ensures
            m@ == error_message(*self),
    {
        let mut out = String::new();
        match self {
            FerryError::InvalidPath(m) => {
                out.append("path is not valid: ");
                out.append(m.as_str());
            },
            FerryError::SameStorageType => {
                out.append("source and destination storage types must differ");
            },
            FerryError::BackendNotConfigured(t) => {
                out.append("storage backend ");
                out.append(t.debug_name());
                out.append(" is not configured");
            },
            FerryError::NotFound(_) => {
                out.append("file not found");
            },
            FerryError::TransferTooLarge { cap } => {
                out.append("transfer exceeded configured size cap of ");
                push_decimal(&mut out, *cap);
                out.append(" bytes");
            },
            FerryError::ListLimitTooLarge { cap } => {
                out.append("requested list limit exceeds server cap of ");
                push_decimal(&mut out, *cap as u64);
            },
            FerryError::BadQuery(m) => {
                out.append("invalid query string: ");
                out.append(m.as_str());
            },
            FerryError::BadBody(m) => {
                out.append("invalid request body: ");
                out.append(m.as_str());
            },
            FerryError::BodyTooLarge { cap } => {
                out.append("request body exceeds server cap of ");
                push_decimal(&mut out, *cap as u64);
                out.append(" bytes");
            },
            FerryError::BodyReadTimeout => {
                out.append("timed out waiting for request body");
            },
            FerryError::Upstream(m) => {
                out.append("upstream storage error: ");
                out.append(m.as_str());
            },
            FerryError::Io(m) => {
                out.append("i/o error: ");
                out.append(m.as_str());
            },
            FerryError::Internal(m) => {
                out.append("internal error: ");
                out.append(m.as_str());
            },
        }
        out
    }

    /// The `{error, message}` reply of this error: its status, its
    /// code, and its text clipped to `MAX_USER_MESSAGE_LEN` characters.
    pub fn reply(&self) -> (r: ErrorReply)
        ensures
            r.status == error_status(*self),
            r.code@ == error_code(*self),
            r.message@ == clipped(error_message(*self)),
    {
        let text = self.message();
        ErrorReply { status: self.status(), code: self.code(), message: clip_user_message(text.as_str()) }
    }

    /// How this error is logged: a missing file names the (clipped)
    /// requested path at WARN, a 5xx is a WARN, anything else a DEBUG.
    pub fn log_kind(&self) -> (k: ErrorLog)
        ensures
            match *self {
                FerryError::NotFound(p) => k matches ErrorLog::NotFound(q) && q@ == clipped(p@),
                _ => if error_status(*self) >= 500 {
                    k matches ErrorLog::ServerError
                } else {
                    k matches ErrorLog::ClientError
                },
            },
    {
        match self {
            FerryError::NotFound(p) => ErrorLog::NotFound(clip_user_message(p.as_str())),
            _ => if self.status() >= 500 {
                ErrorLog::ServerError
            } else {
                ErrorLog::ClientError
            },
        }
    }
}

} // verus!
