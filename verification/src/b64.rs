//! Trusted base64 decoding through the `base64` crate.

use base64::Engine;
use vstd::prelude::*;

verus! {

/// What the standard base64 engine decodes a string to: a pure function of
/// the characters alone, absent exactly on input the engine rejects.
pub uninterp spec fn b64_decode_of(s: Seq<char>) -> Option<Seq<u8>>;

/// Relies on base64's `STANDARD` engine `decode`: deterministic in its
/// input, `Err` exactly on malformed base64.
#[verifier::external_body]
pub fn b64_decode(s: &str) -> (r: Option<Vec<u8>>)
    ensures
        r is Some <==> b64_decode_of(s@) is Some,
        r matches Some(v) ==> Some(v@) == b64_decode_of(s@),
{
    base64::engine::general_purpose::STANDARD.decode(s).ok()
}

} // verus!
