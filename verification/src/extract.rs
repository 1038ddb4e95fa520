//! Request extractors whose rejections become the structured
//! `{error, message}` replies: a bad query is `bad_query`, a bad body
//! `bad_body`, an oversize body `body_too_large`, and a body that takes
//! too long to arrive `body_read_timeout`.

use vstd::prelude::*;
use crate::error::{FerryError, clip_user_message, clipped};

verus! {

/// Longest time, in seconds, spent waiting for a JSON body.
pub const BODY_READ_TIMEOUT_SECS: u64 = 30;

/// A deserialized query string.
pub struct TypedQuery<T>(pub T);

/// A deserialized JSON body.
pub struct TypedJson<T>(pub T);

impl<T> TypedQuery<T> {
    /// The error for a query that failed to deserialize with `reason`:
    /// `BadQuery` carrying the reason clipped to the message cap.
    pub fn rejection(reason: &str) -> (e: FerryError)
        ensures
            e matches FerryError::BadQuery(m) && m@ == clipped(reason@),
    {
        FerryError::BadQuery(clip_user_message(reason))
    }
}

impl<T> TypedJson<T> {
    /// The error for a body the JSON extractor refused with HTTP
    /// `status` and text `reason`: `BodyTooLarge` for 413, otherwise
    /// `BadBody` carrying the clipped reason.
    pub fn rejection(status: u16, reason: &str) -> (e: FerryError)
        ensures
            status == 413 ==> (e matches FerryError::BodyTooLarge { cap } && cap == 0),
            status != 413 ==> (e matches FerryError::BadBody(m) && m@ == clipped(reason@)),
    {
        if status == 413 {
            FerryError::BodyTooLarge { cap: 0 }
        } else {
            FerryError::BadBody(clip_user_message(reason))
        }
    }

    /// The error for a body still incomplete after
    /// `BODY_READ_TIMEOUT_SECS`.
    pub fn timed_out() -> (e: FerryError)
        ensures
            e is BodyReadTimeout,
    {
        FerryError::BodyReadTimeout
    }
}

} // verus!
