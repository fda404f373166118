//! Decoding of the audio payload.
//!
//! The caller hands the audio as a base64 string; the request stages the
//! decoded bytes in the temporary input file.  The decoding itself is the
//! base64 crate's; its result is a function of the input characters alone
//! and is named `base64_decoding` here.

use vstd::prelude::*;
use crate::errors::TranscribeError;

verus! {

/// What strict standard-alphabet base64 decoding yields for `s`: the decoded
/// bytes, or nothing when `s` is not valid base64.
pub uninterp spec fn base64_decoding(s: Seq<char>) -> Option<Seq<u8>>;

/// Relies on the base64 crate's `Engine::decode` with the
/// `general_purpose::STANDARD` engine: strict decoding under the standard
/// alphabet with padding, a function of the input characters alone.  On
/// failure the decoder's rendered reason comes back.
#[verifier::external_body]
fn base64_decode(data: &str) -> (r: Result<Vec<u8>, String>)
    ensures
        match r {
            Ok(v) => base64_decoding(data@) == Some(v@),
            Err(_) => base64_decoding(data@) is None,
        },
{
    match base64::Engine::decode(&base64::engine::general_purpose::STANDARD, data) {
        Ok(v) => Ok(v),
        Err(e) => Err(e.to_string()),
    }
}

/// Decode the audio payload, or report why it cannot be.
pub fn decode_audio_payload(data: &str) -> (r: Result<Vec<u8>, TranscribeError>)
    ensures
        match r {
            Ok(v) => base64_decoding(data@) == Some(v@),
            Err(e) => (e matches TranscribeError::AudioDecodeFailed(_)) && base64_decoding(data@)
                is None,
        },
{
    match base64_decode(data) {
        Ok(v) => Ok(v),
        Err(reason) => Err(TranscribeError::AudioDecodeFailed(reason)),
    }
}

} // verus!
