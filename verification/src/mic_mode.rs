//! Naming the platform's microphone modes.
//!
//! The platform reports the preferred microphone mode as a small integer;
//! the caller receives its name.

use vstd::prelude::*;

verus! {

/// The name of each microphone mode the platform can report; anything
/// outside the known range is "unknown".
pub open spec fn mic_mode_name_spec(mode: int) -> Seq<char> {
    if mode == 0 {
        "standard"@
    } else if mode == 1 {
        "wideSpectrum"@
    } else if mode == 2 {
        "voiceIsolation"@
    } else {
        "unknown"@
    }
}

/// Name the microphone mode the platform reported.
pub fn mic_mode_name(mode: i64) -> (r: String)
    ensures
        r@ == mic_mode_name_spec(mode as int),
{
    if mode == 0 {
        String::from_str("standard")
    } else if mode == 1 {
        String::from_str("wideSpectrum")
    } else if mode == 2 {
        String::from_str("voiceIsolation")
    } else {
        String::from_str("unknown")
    }
}

} // verus!
