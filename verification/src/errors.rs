//! The terminal errors a transcription request can surface.
//!
//! Per-candidate conditions (a tool that is absent, or that runs and fails)
//! are absorbed by the fallback and never cross the component boundary; only
//! a failure to stage the input, a payload that cannot be decoded, or the
//! exhaustion of every candidate is returned.

use vstd::prelude::*;

verus! {

#[derive(Debug, PartialEq, Eq)]
pub enum TranscribeError {
    /// The audio payload was not valid base64; carries the decoder's reason.
    AudioDecodeFailed(String),
    /// The audio bytes could not be written to the temporary input file.
    InputStagingFailed,
    /// Every candidate tool was tried and none produced usable output.
    AllCandidatesExhausted,
}

/// The text shown for each terminal error.
pub open spec fn error_message_spec(e: TranscribeError) -> Seq<char> {
    match e {
        TranscribeError::AudioDecodeFailed(reason) => "Failed to decode audio: "@ + reason@,
        TranscribeError::InputStagingFailed => "Failed to stage audio in a temporary file"@,
        TranscribeError::AllCandidatesExhausted
            => "Whisper not available. Install whisper.cpp: https://github.com/ggerganov/whisper.cpp"@,
    }
}

impl TranscribeError {
    /// Render the error for the caller.
    pub fn message(&self) -> (m: String)
        ensures
            m@ == error_message_spec(*self),
    {
        match self {
            TranscribeError::AudioDecodeFailed(reason) => String::from_str(
                "Failed to decode audio: ",
            ).concat(reason.as_str()),
            TranscribeError::InputStagingFailed => String::from_str(
                "Failed to stage audio in a temporary file",
            ),
            TranscribeError::AllCandidatesExhausted => String::from_str(
                "Whisper not available. Install whisper.cpp: https://github.com/ggerganov/whisper.cpp",
            ),
        }
    }
}

} // verus!
