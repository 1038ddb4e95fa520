//! The offline stand-in for an outbound backend: every call fails with
//! a fixed `Upstream` error, so a test or pentest session can never
//! reach a live S3 endpoint. The filesystem backend is never replaced.

use vstd::prelude::*;
use crate::config::{AppConfig, EnvVars, env_lookup, flag_is_set, env_flag_enabled};
use crate::error::FerryError;
use crate::model::StorageType;

verus! {

/// Name of the env var that stubs the outbound backend.
pub const OFFLINE_ENV: &'static str = "FILEFERRY_OFFLINE";

/// The message every offline call fails with.
pub open spec fn offline_message() -> Seq<char> {
    "offline mode: outbound blocked by FILEFERRY_OFFLINE"@
}

/// A backend that refuses every call without contacting anything.
pub struct OfflineBackend {
    reports_as: StorageType,
}

impl OfflineBackend {
    /// The storage type the stub reports.
    pub closed spec fn reported(&self) -> StorageType {
        self.reports_as
    }

    /// A stub that reports itself as `reports_as`.
    pub fn new(reports_as: StorageType) -> (r: OfflineBackend)
        ensures
            r.reported() == reports_as,
    {
        OfflineBackend { reports_as }
    }

    /// The operator-configured type, so `/v1/files?type=S3` still
    /// names S3 while stubbed.
    pub fn kind(&self) -> (k: StorageType)
        ensures
            k == self.reported(),
    {
        self.reports_as
    }

    /// The error every listing, read and write of the stub fails with.
    pub fn refusal(&self) -> (e: FerryError)
        ensures
            e matches FerryError::Upstream(m) && m@ == offline_message(),
    {
        let m = String::from_str("offline mode: outbound blocked by FILEFERRY_OFFLINE");
        proof {
            reveal_strlit("offline mode: outbound blocked by FILEFERRY_OFFLINE");
        }
        FerryError::Upstream(m)
    }
}

/// Whether the environment asks for offline mode: `FILEFERRY_OFFLINE`
/// set to `1`, `true` or `yes` in any ASCII case, whitespace aside.
/// Any other value, empty included, or no value, means live outbound.
pub fn offline_from_env(env: &EnvVars) -> (r: bool)
    ensures
        r == flag_is_set(env_lookup(env.vars@, OFFLINE_ENV@)),
{
    match env.get(OFFLINE_ENV) {
        Some(v) => env_flag_enabled(Some(v.as_str())),
        None => env_flag_enabled(None),
    }
}

/// Which backend serves S3.
#[derive(Debug, Clone, Copy, PartialEq, Eq, Structural)]
pub enum S3Choice {
    /// No `s3:` block: S3 requests get `backend_not_configured`.
    Disabled,
    /// An `s3:` block in offline mode: the stand-in refuses every call.
    Offline,
    /// An `s3:` block, live: the SDK client talks to the bucket.
    Live,
}

/// The S3 backend to wire: none without an `s3:` block; with one, the
/// offline stand-in when `FILEFERRY_OFFLINE` asks for it, else the live
/// client.
pub fn s3_backend_choice(cfg: &AppConfig, env: &EnvVars) -> (r: S3Choice)
    ensures
        cfg.s3 is None ==> r == S3Choice::Disabled,
        cfg.s3 is Some && flag_is_set(env_lookup(env.vars@, OFFLINE_ENV@)) ==> r == S3Choice::Offline,
        cfg.s3 is Some && !flag_is_set(env_lookup(env.vars@, OFFLINE_ENV@)) ==> r == S3Choice::Live,
{
    if cfg.s3.is_none() {
        S3Choice::Disabled
    } else if offline_from_env(env) {
        S3Choice::Offline
    } else {
        S3Choice::Live
    }
}

} // verus!
