use whisper_fallback::errors::TranscribeError;
use whisper_fallback::runner::{
    replay_outcomes, resolve_outcomes, CandidateOutcome, TranscribeSession,
};

fn session() -> TranscribeSession {
    TranscribeSession::new("/tmp", "/home/user", "en", 111, 7)
}

#[test]
fn first_candidate_success_wins() {
    let outcomes = vec![
        CandidateOutcome::Produced(" first \n".to_string()),
        CandidateOutcome::Produced("second".to_string()),
    ];
    assert_eq!(resolve_outcomes(&outcomes), Ok("first".to_string()));
}

#[test]
fn all_candidates_missing_is_exhaustion() {
    let outcomes = vec![
        CandidateOutcome::ToolNotFound,
        CandidateOutcome::ToolNotFound,
        CandidateOutcome::ToolNotFound,
    ];
    assert_eq!(
        resolve_outcomes(&outcomes),
        Err(TranscribeError::AllCandidatesExhausted)
    );
}

#[test]
fn empty_candidate_list_is_exhaustion() {
    let outcomes: Vec<CandidateOutcome> = vec![];
    assert_eq!(
        resolve_outcomes(&outcomes),
        Err(TranscribeError::AllCandidatesExhausted)
    );
}

#[test]
fn failure_then_success_returns_second_output() {
    let outcomes = vec![
        CandidateOutcome::ToolExecutionFailed,
        CandidateOutcome::Produced("hello world\n".to_string()),
    ];
    assert_eq!(resolve_outcomes(&outcomes), Ok("hello world".to_string()));
}

#[test]
fn blank_output_fails_that_candidate() {
    let outcomes = vec![
        CandidateOutcome::Produced("  \n\t ".to_string()),
        CandidateOutcome::Produced("second speaks".to_string()),
    ];
    assert_eq!(resolve_outcomes(&outcomes), Ok("second speaks".to_string()));
}

#[test]
fn all_blank_outputs_exhaust() {
    let outcomes = vec![
        CandidateOutcome::Produced(" ".to_string()),
        CandidateOutcome::Produced(String::new()),
        CandidateOutcome::ToolNotFound,
    ];
    assert_eq!(
        resolve_outcomes(&outcomes),
        Err(TranscribeError::AllCandidatesExhausted)
    );
}

#[test]
fn blank_output_advances_the_session() {
    let mut s = session();
    assert_eq!(
        s.note_outcome(CandidateOutcome::Produced("   \n".to_string())),
        None
    );
    let next = s.next_invocation().expect("the run goes on");
    assert_eq!(next.program, "whisper-cpp");
}

#[test]
fn mixed_failures_without_success_exhaust() {
    let outcomes = vec![
        CandidateOutcome::ToolNotFound,
        CandidateOutcome::ToolExecutionFailed,
        CandidateOutcome::ToolNotFound,
    ];
    assert_eq!(
        resolve_outcomes(&outcomes),
        Err(TranscribeError::AllCandidatesExhausted)
    );
}

#[test]
fn silence_clip_falls_through_to_second_tool() {
    // A short silent recording under the "en" hint: the first tool fails,
    // the second answers "hello world".
    let mut s = TranscribeSession::new("/tmp", "/home/user", "en", 2024, 1);
    let first = s.next_invocation().expect("first candidate planned");
    assert_eq!(first.program, "whisper");
    assert_eq!(s.note_outcome(CandidateOutcome::ToolExecutionFailed), None);
    let second = s.next_invocation().expect("second candidate planned");
    assert_eq!(second.program, "whisper-cpp");
    let text = s.note_outcome(CandidateOutcome::Produced("hello world".to_string()));
    assert_eq!(text, Some("hello world".to_string()));
    assert!(s.next_invocation().is_none());
}

#[test]
fn success_stops_the_session() {
    let mut s = session();
    assert!(s.next_invocation().is_some());
    let text = s.note_outcome(CandidateOutcome::Produced("  done \n".to_string()));
    assert_eq!(text, Some("done".to_string()));
    assert!(s.next_invocation().is_none());
    assert!(!s.exhausted());
}

#[test]
fn session_exhausts_after_three_failures() {
    let mut s = session();
    for _ in 0..3 {
        assert!(s.next_invocation().is_some());
        assert_eq!(s.note_outcome(CandidateOutcome::ToolNotFound), None);
    }
    assert!(s.next_invocation().is_none());
    assert!(s.exhausted());
}

#[test]
fn session_plans_whisper_cli_arguments() {
    let s = session();
    let inv = s.next_invocation().unwrap();
    assert_eq!(inv.program, "whisper");
    assert!(!inv.reads_stdout);
    assert_eq!(
        inv.args,
        vec![
            "-m".to_string(),
            "/home/user/.cache/whisper/ggml-base.bin".to_string(),
            "-f".to_string(),
            "/tmp/whisper_input_111_7.wav".to_string(),
            "-l".to_string(),
            "en".to_string(),
            "-otxt".to_string(),
            "-of".to_string(),
            "/tmp/whisper_output_111_7".to_string(),
        ]
    );
}

#[test]
fn session_plans_faster_whisper_arguments() {
    let mut s = session();
    s.note_outcome(CandidateOutcome::ToolNotFound);
    s.note_outcome(CandidateOutcome::ToolNotFound);
    let inv = s.next_invocation().unwrap();
    assert_eq!(inv.program, "faster-whisper");
    assert!(inv.reads_stdout);
    assert_eq!(
        inv.args,
        vec![
            "/tmp/whisper_input_111_7.wav".to_string(),
            "--language".to_string(),
            "en".to_string(),
            "--model".to_string(),
            "base".to_string(),
            "--output_format".to_string(),
            "txt".to_string(),
        ]
    );
}

#[test]
fn cleanup_targets_hold_through_the_whole_run() {
    let mut s = session();
    let expected = (
        "/tmp/whisper_input_111_7.wav".to_string(),
        "/tmp/whisper_output_111_7.txt".to_string(),
    );
    assert_eq!(s.cleanup_targets(), expected);
    s.note_outcome(CandidateOutcome::ToolNotFound);
    assert_eq!(s.cleanup_targets(), expected);
    s.note_outcome(CandidateOutcome::ToolExecutionFailed);
    assert_eq!(s.cleanup_targets(), expected);
    s.note_outcome(CandidateOutcome::Produced("x".to_string()));
    assert_eq!(s.cleanup_targets(), expected);
}

#[test]
fn replayed_session_returns_the_first_success() {
    let mut s = session();
    let r = replay_outcomes(
        &mut s,
        vec![
            CandidateOutcome::ToolExecutionFailed,
            CandidateOutcome::Produced(" hello world\n".to_string()),
            CandidateOutcome::ToolNotFound,
        ],
    );
    assert_eq!(r, Ok("hello world".to_string()));
}

#[test]
fn replayed_session_exhausts_without_success() {
    let mut s = session();
    let r = replay_outcomes(
        &mut s,
        vec![
            CandidateOutcome::ToolNotFound,
            CandidateOutcome::ToolExecutionFailed,
            CandidateOutcome::ToolNotFound,
        ],
    );
    assert_eq!(r, Err(TranscribeError::AllCandidatesExhausted));
}

#[test]
fn exhaustion_message_names_the_dependency() {
    assert_eq!(
        TranscribeError::AllCandidatesExhausted.message(),
        "Whisper not available. Install whisper.cpp: https://github.com/ggerganov/whisper.cpp"
    );
}

#[test]
fn staging_and_decode_messages() {
    assert_eq!(
        TranscribeError::InputStagingFailed.message(),
        "Failed to stage audio in a temporary file"
    );
    assert_eq!(
        TranscribeError::AudioDecodeFailed("Invalid padding".to_string()).message(),
        "Failed to decode audio: Invalid padding"
    );
}
