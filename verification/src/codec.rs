//! Trusted view of strict UTF-8 decoding.
//!
//! The downloaded artifact is validated on its decoded text but written
//! back as raw bytes, so the decoding must be exact: it succeeds iff the
//! bytes are valid UTF-8, and the text is their decoding as `vstd`'s
//! UTF-8 model defines it.

use vstd::prelude::*;
use vstd::utf8::{decode_utf8, valid_utf8};

verus! {

/// Relies on `core::str::from_utf8`: succeeds exactly on valid UTF-8 and
/// returns the decoded text.
#[verifier::external_body]
pub fn bytes_to_text(b: &Vec<u8>) -> (r: Option<String>)
    ensures
        match r {
            Some(t) => valid_utf8(b@) && t@ == decode_utf8(b@),
            None => !valid_utf8(b@),
        },
{
    core::str::from_utf8(b.as_slice()).ok().map(|s| s.to_owned())
}

} // verus!
