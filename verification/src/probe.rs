//! Deciding whether any transcription tool is installed.
//!
//! The application probes each known command (it runs `--help` and watches
//! whether the process starts); the decision over the probe results is made
//! here: the capability is available exactly when some probe succeeded.

use vstd::prelude::*;

verus! {

/// The commands probed for availability, in the order they are tried.
pub fn probe_commands() -> (r: Vec<String>)
    ensures
        r@.len() == 4,
        r@[0]@ == "whisper"@,
        r@[1]@ == "whisper-cpp"@,
        r@[2]@ == "main"@,
        r@[3]@ == "faster-whisper"@,
{
    let mut v: Vec<String> = Vec::new();
    v.push(String::from_str("whisper"));
    v.push(String::from_str("whisper-cpp"));
    v.push(String::from_str("main"));
    v.push(String::from_str("faster-whisper"));
    v
}

/// Whether any probe succeeded.
pub fn any_probe_succeeded(probes: &Vec<bool>) -> (r: bool)
    ensures
        r == exists|i: int| 0 <= i < probes@.len() && probes@[i],
{
    let n = probes.len();
    let mut i: usize = 0;
    while i < n
        invariant
            0 <= i <= n == probes@.len(),
            forall|k: int| 0 <= k < i ==> !probes@[k],
        decreases n - i,
    {
        if probes[i] {
            return true;
        }
        i = i + 1;
    }
    false
}

} // verus!
