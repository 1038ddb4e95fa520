//! The boot-time pass over accepted-but-unwired configuration fields:
//! each such field set to a non-default value earns a warning naming
//! the field, what it would control, and the release that wires it.
//!
//! No field is in that state in this build (`cors_origin`, the last
//! one, is now a hard configuration error), so the pass reports
//! nothing, whatever the configuration.

use vstd::prelude::*;
use crate::config::AppConfig;

verus! {

/// A field that is parsed and stored but drives no behaviour yet.
pub struct UnwiredField {
    pub name: &'static str,
    /// What the field will control once wired.
    pub intended: &'static str,
    /// The release expected to wire it.
    pub planned_release: &'static str,
}

/// The accepted-but-unwired fields of this build: none.
pub fn unwired_fields() -> (r: Vec<UnwiredField>)
    ensures
        r@.len() == 0,
{
    Vec::new()
}

/// The unwired fields `cfg` sets to a non-default value, one warning
/// each; with an empty table, none for any configuration.
pub fn diagnose(cfg: &AppConfig) -> (r: Vec<UnwiredField>)
    ensures
        r@.len() == 0,
{
    unwired_fields()
}

} // verus!
