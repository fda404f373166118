//! The ordered fallback over external transcription tools.
//!
//! A `TranscribeSession` plans one request: it fixes the temporary paths from
//! the process id and a request token, and steps through the candidate tools
//! in priority order.  The embedding application performs each planned
//! invocation and reports what happened; the session decides whether the run
//! is over and what the caller receives.  The same decision, taken over a
//! whole sequence of outcomes at once, is `resolve_outcomes`, and the laws of
//! the fallback are proved of its specification.

use vstd::prelude::*;
use crate::errors::TranscribeError;
use crate::naming;
use crate::text::{trim_spec, trim_text};

verus! {

/// How many candidate tools the fallback tries, in priority order.
pub const CANDIDATE_COUNT: usize = 3;

/// What happened when one candidate tool was tried.
#[derive(Debug, PartialEq, Eq)]
pub enum CandidateOutcome {
    /// The tool could not be located or started: not installed.
    ToolNotFound,
    /// The tool started but exited with a failure status, or exited
    /// successfully without leaving a readable text artifact.
    ToolExecutionFailed,
    /// The tool exited successfully and left this text.
    Produced(String),
}

/// One planned external call: a program, its arguments, and where its text
/// appears on success.
pub struct ToolInvocation {
    pub program: String,
    pub args: Vec<String>,
    /// True when the tool prints the transcript on standard output; false
    /// when it writes the text artifact next to the output base path.
    pub reads_stdout: bool,
}

/// The character sequences of a sequence of strings.
pub open spec fn strings_view(v: Seq<String>) -> Seq<Seq<char>> {
    v.map_values(|s: String| s@)
}

/// The program name of the candidate at `idx`.
pub open spec fn candidate_program(idx: int) -> Seq<char> {
    if idx == 0 {
        "whisper"@
    } else if idx == 1 {
        "whisper-cpp"@
    } else {
        "faster-whisper"@
    }
}

/// Whether the candidate at `idx` prints its transcript on standard output.
pub open spec fn candidate_reads_stdout(idx: int) -> bool {
    idx == 2
}

/// The argument list of a whisper.cpp style tool.
pub open spec fn whisper_cli_args(
    model: Seq<char>,
    input: Seq<char>,
    language: Seq<char>,
    out_base: Seq<char>,
) -> Seq<Seq<char>> {
    seq!["-m"@, model, "-f"@, input, "-l"@, language, "-otxt"@, "-of"@, out_base]
}

/// The argument list of the faster-whisper tool.
pub open spec fn faster_whisper_args(input: Seq<char>, language: Seq<char>) -> Seq<Seq<char>> {
    seq![input, "--language"@, language, "--model"@, "base"@, "--output_format"@, "txt"@]
}

/// The argument list of the candidate at `idx`.
pub open spec fn candidate_args(
    idx: int,
    model: Seq<char>,
    input: Seq<char>,
    language: Seq<char>,
    out_base: Seq<char>,
) -> Seq<Seq<char>> {
    if idx < 2 {
        whisper_cli_args(model, input, language, out_base)
    } else {
        faster_whisper_args(input, language)
    }
}

/// One transcription request: the fixed temporary paths and the candidate
/// cursor.
pub struct TranscribeSession {
    pub input_path: String,
    pub output_base_path: String,
    pub output_artifact_path: String,
    pub model_path: String,
    pub language: String,
    pub next_candidate: usize,
    pub done: bool,
}

impl TranscribeSession {
    pub open spec fn wf(&self) -> bool {
        self.next_candidate <= CANDIDATE_COUNT
    }

    /// The paths of this session never change after construction; every
    /// branch of the run removes both temporary files named here.
    pub open spec fn same_paths(&self, other: &Self) -> bool {
        self.input_path@ == other.input_path@ && self.output_base_path@
            == other.output_base_path@ && self.output_artifact_path@
            == other.output_artifact_path@ && self.model_path@ == other.model_path@
            && self.language@ == other.language@
    }

    /// Plan a request: fix the temporary paths from the process id and a
    /// request-scoped token, and start at the first candidate.
    pub fn new(temp_dir: &str, home: &str, language: &str, pid: u64, token: u64) -> (s: Self)
        ensures
            s.wf(),
            s.next_candidate == 0,
            !s.done,
            s.input_path@ == naming::path_in_dir(
                temp_dir@,
                naming::input_file_name(pid as nat, token as nat),
            ),
            s.output_base_path@ == naming::path_in_dir(
                temp_dir@,
                naming::output_base_name(pid as nat, token as nat),
            ),
            s.output_artifact_path@ == naming::path_in_dir(
                temp_dir@,
                naming::output_artifact_name(pid as nat, token as nat),
            ),
            s.model_path@ == home@ + "/.cache/whisper/ggml-base.bin"@,
            s.language@ == language@,
    {
        let input_name = naming::render_input_file_name(pid, token);
        let out_base_name = naming::render_output_base_name(pid, token);
        let out_artifact_name = naming::render_output_artifact_name(pid, token);
        TranscribeSession {
            input_path: naming::render_path_in_dir(temp_dir, input_name.as_str()),
            output_base_path: naming::render_path_in_dir(temp_dir, out_base_name.as_str()),
            output_artifact_path: naming::render_path_in_dir(temp_dir, out_artifact_name.as_str()),
            model_path: naming::render_model_file_path(home),
            language: String::from_str(language),
            next_candidate: 0,
            done: false,
        }
    }

    /// The two temporary files of this request, to remove before returning,
    /// whatever the outcome: the staged input and the text artifact.
    pub fn cleanup_targets(&self) -> (r: (String, String))
        ensures
            r.0@ == self.input_path@,
            r.1@ == self.output_artifact_path@,
    {
        (self.input_path.clone(), self.output_artifact_path.clone())
    }

    /// The next planned external call: the candidate at the cursor, or
    /// nothing when the run is over or every candidate was tried.
    pub fn next_invocation(&self) -> (r: Option<ToolInvocation>)
        requires
            self.wf(),
        ensures
            (r is Some) <==> (!self.done && self.next_candidate < CANDIDATE_COUNT),
            r matches Some(inv) ==> {
                &&& inv.program@ == candidate_program(self.next_candidate as int)
                &&& strings_view(inv.args@) == candidate_args(
                    self.next_candidate as int,
                    self.model_path@,
                    self.input_path@,
                    self.language@,
                    self.output_base_path@,
                )
                &&& inv.reads_stdout == candidate_reads_stdout(self.next_candidate as int)
            },
    {
        if self.done || self.next_candidate >= CANDIDATE_COUNT {
            return None;
        }
        if self.next_candidate < 2 {
            let program = if self.next_candidate == 0 {
                String::from_str("whisper")
            } else {
                String::from_str("whisper-cpp")
            };
            let mut args: Vec<String> = Vec::new();
            args.push(String::from_str("-m"));
            args.push(self.model_path.clone());
            args.push(String::from_str("-f"));
            args.push(self.input_path.clone());
            args.push(String::from_str("-l"));
            args.push(self.language.clone());
            args.push(String::from_str("-otxt"));
            args.push(String::from_str("-of"));
            args.push(self.output_base_path.clone());
            proof {
                assert(strings_view(args@) =~= whisper_cli_args(
                    self.model_path@,
                    self.input_path@,
                    self.language@,
                    self.output_base_path@,
                ));
            }
            Some(ToolInvocation { program, args, reads_stdout: false })
        } else {
            let mut args: Vec<String> = Vec::new();
            args.push(self.input_path.clone());
            args.push(String::from_str("--language"));
            args.push(self.language.clone());
            args.push(String::from_str("--model"));
            args.push(String::from_str("base"));
            args.push(String::from_str("--output_format"));
            args.push(String::from_str("txt"));
            proof {
                assert(strings_view(args@) =~= faster_whisper_args(
                    self.input_path@,
                    self.language@,
                ));
            }
            Some(ToolInvocation {
                program: String::from_str("faster-whisper"),
                args,
                reads_stdout: true,
            })
        }
    }

    /// Take one candidate's outcome.  A usable produced text — non-blank
    /// once trimmed — finishes the run with the trimmed transcript, so a
    /// returned transcript is never empty and no later candidate is planned.
    /// Any other outcome, a whitespace-only production included, is that
    /// candidate's failure: it is absorbed and the cursor moves on.
    pub fn note_outcome(&mut self, outcome: CandidateOutcome) -> (r: Option<String>)
        requires
            old(self).wf(),
            !old(self).done,
            old(self).next_candidate < CANDIDATE_COUNT,
        ensures
            final(self).wf(),
            final(self).same_paths(old(self)),
            is_usable_outcome(outcome) ==> {
                &&& (r matches Some(text) && text@ == trim_spec(outcome->Produced_0@)
                    && text@.len() > 0)
                &&& final(self).done
                &&& final(self).next_candidate == old(self).next_candidate
            },
            !is_usable_outcome(outcome) ==> {
                &&& r is None
                &&& !final(self).done
                &&& final(self).next_candidate == old(self).next_candidate + 1
            },
    {
        match outcome {
            CandidateOutcome::Produced(t) => {
                let text = trim_text(t.as_str());
                if text.as_str().is_empty() {
                    self.next_candidate = self.next_candidate + 1;
                    None
                } else {
                    self.done = true;
                    Some(text)
                }
            },
            _ => {
                self.next_candidate = self.next_candidate + 1;
                None
            },
        }
    }

    /// Whether every candidate was tried without success: the run then ends
    /// in `AllCandidatesExhausted`.
    pub fn exhausted(&self) -> (r: bool)
        ensures
            r == (!self.done && self.next_candidate >= CANDIDATE_COUNT),
    {
        !self.done && self.next_candidate >= CANDIDATE_COUNT
    }
}

/// Whether one candidate's outcome is a success: it produced text that is
/// not blank once trimmed.  A transcript the caller receives is never empty,
/// so a whitespace-only production is that candidate's failure.
pub open spec fn is_usable_outcome(o: CandidateOutcome) -> bool {
    o matches CandidateOutcome::Produced(t) && trim_spec(t@).len() > 0
}

/// What the fallback returns for a whole sequence of candidate outcomes, in
/// priority order: the first usable produced text, trimmed, else exhaustion.
pub open spec fn resolve_spec(outcomes: Seq<CandidateOutcome>) -> Result<
    Seq<char>,
    TranscribeError,
>
    decreases outcomes.len(),
{
    if outcomes.len() == 0 {
        Err(TranscribeError::AllCandidatesExhausted)
    } else if is_usable_outcome(outcomes[0]) {
        Ok(trim_spec(outcomes[0]->Produced_0@))
    } else {
        resolve_spec(outcomes.drop_first())
    }
}

/// How many candidates the fallback invokes before stopping: everything up
/// to and including the first success, or all of them.
pub open spec fn tried_count(outcomes: Seq<CandidateOutcome>) -> int
    decreases outcomes.len(),
{
    if outcomes.len() == 0 {
        0
    } else if is_usable_outcome(outcomes[0]) {
        1
    } else {
        1 + tried_count(outcomes.drop_first())
    }
}

/// Decide a whole run at once from the outcomes in priority order.
pub fn resolve_outcomes(outcomes: &Vec<CandidateOutcome>) -> (r: Result<String, TranscribeError>)
    ensures
        match r {
            Ok(text) => resolve_spec(outcomes@) matches Ok(expected) && text@ == expected
                && text@.len() > 0,
            Err(e) => resolve_spec(outcomes@) matches Err(expected) && e == expected,
        },
{
    let n = outcomes.len();
    let mut i: usize = 0;
    proof {
        assert(outcomes@.subrange(0, n as int) =~= outcomes@);
    }
    while i < n
        invariant
            0 <= i <= n == outcomes@.len(),
            resolve_spec(outcomes@) == resolve_spec(outcomes@.subrange(i as int, n as int)),
        decreases n - i,
    {
        let ghost rest = outcomes@.subrange(i as int, n as int);
        proof {
            assert(rest[0] == outcomes@[i as int]);
            assert(rest.drop_first() =~= outcomes@.subrange(i as int + 1, n as int));
        }
        match &outcomes[i] {
            CandidateOutcome::Produced(t) => {
                let text = trim_text(t.as_str());
                if !text.as_str().is_empty() {
                    proof {
                        assert(is_usable_outcome(rest[0]));
                    }
                    return Ok(text);
                }
                proof {
                    assert(!is_usable_outcome(rest[0]));
                    assert(resolve_spec(rest) == resolve_spec(rest.drop_first()));
                }
            },
            _ => {
                proof {
                    assert(!is_usable_outcome(rest[0]));
                    assert(resolve_spec(rest) == resolve_spec(rest.drop_first()));
                }
            },
        }
        i = i + 1;
    }
    proof {
        assert(outcomes@.subrange(n as int, n as int).len() == 0);
    }
    Err(TranscribeError::AllCandidatesExhausted)
}

/// Drive a fresh session with one outcome per candidate, in priority order:
/// stepping the session returns exactly what `resolve_spec` decides for the
/// sequence, the paths never change, and the run stops at the first success.
#[verifier::loop_isolation(false)]
pub fn replay_outcomes(session: &mut TranscribeSession, outcomes: Vec<CandidateOutcome>) -> (r:
    Result<String, TranscribeError>)
    requires
        old(session).wf(),
        !old(session).done,
        old(session).next_candidate == 0,
        outcomes@.len() == CANDIDATE_COUNT,
    ensures
        final(session).wf(),
        final(session).same_paths(old(session)),
        match r {
            Ok(text) => resolve_spec(outcomes@) matches Ok(expected) && text@ == expected
                && text@.len() > 0,
            Err(e) => resolve_spec(outcomes@) matches Err(expected) && e == expected,
        },
{
    let ghost full = outcomes@;
    let mut rest = outcomes;
    loop
        invariant
            session.wf(),
            !session.done,
            session.same_paths(old(session)),
            session.next_candidate + rest@.len() == CANDIDATE_COUNT,
            resolve_spec(full) == resolve_spec(rest@),
        decreases rest@.len(),
    {
        match session.next_invocation() {
            None => {
                proof {
                    assert(rest@.len() == 0);
                    assert(resolve_spec(rest@) == Err::<Seq<char>, TranscribeError>(
                        TranscribeError::AllCandidatesExhausted,
                    ));
                    assert(full == outcomes@);
                }
                return Err(TranscribeError::AllCandidatesExhausted);
            },
            Some(_inv) => {
                let ghost before = rest@;
                let ghost head = rest@[0];
                let outcome = rest.remove(0);
                proof {
                    assert(rest@ =~= before.drop_first());
                }
                match session.note_outcome(outcome) {
                    Some(text) => {
                        proof {
                            assert(is_usable_outcome(head));
                            let t = head->Produced_0;
                            assert(text@ == trim_spec(t@));
                            assert(resolve_spec(before) == Ok::<Seq<char>, TranscribeError>(
                                trim_spec(t@),
                            ));
                            assert(full == outcomes@);
                        }
                        return Ok(text);
                    },
                    None => {
                        proof {
                            assert(!is_usable_outcome(head));
                            assert(resolve_spec(before) == resolve_spec(before.drop_first()));
                        }
                    },
                }
            },
        }
    }
}

/// The first candidate that is installed and succeeds — its output is not
/// blank once trimmed — wins: the result is its trimmed output, and no
/// later candidate is invoked.
pub proof fn lemma_first_success_wins(outcomes: Seq<CandidateOutcome>, t: String)
    requires
        outcomes.len() > 0,
        outcomes[0] == CandidateOutcome::Produced(t),
        trim_spec(t@).len() > 0,
    ensures
        resolve_spec(outcomes) == Ok::<Seq<char>, TranscribeError>(trim_spec(t@)),
        tried_count(outcomes) == 1,
{
}

/// A run in which no candidate produces usable output tries every candidate
/// and ends in exhaustion.
pub proof fn lemma_no_success_exhausts(outcomes: Seq<CandidateOutcome>)
    requires
        forall|i: int| 0 <= i < outcomes.len() ==> !is_usable_outcome(#[trigger] outcomes[i]),
    ensures
        resolve_spec(outcomes) == Err::<Seq<char>, TranscribeError>(
            TranscribeError::AllCandidatesExhausted,
        ),
        tried_count(outcomes) == outcomes.len(),
    decreases outcomes.len(),
{
    if outcomes.len() > 0 {
        assert(!is_usable_outcome(outcomes[0]));
        assert(forall|i: int|
            0 <= i < outcomes.drop_first().len() ==> #[trigger] outcomes.drop_first()[i]
                == outcomes[i + 1]);
        lemma_no_success_exhausts(outcomes.drop_first());
    }
}

/// A transcript the fallback returns is never the empty string: success is
/// a non-empty text.
pub proof fn lemma_success_never_empty(outcomes: Seq<CandidateOutcome>)
    ensures
        resolve_spec(outcomes) matches Ok(text) ==> text.len() > 0,
    decreases outcomes.len(),
{
    if outcomes.len() > 0 && !is_usable_outcome(outcomes[0]) {
        lemma_success_never_empty(outcomes.drop_first());
    }
}

/// When every candidate is absent, the run ends in exhaustion.
pub proof fn lemma_all_missing_exhausts(outcomes: Seq<CandidateOutcome>)
    requires
        forall|i: int|
            0 <= i < outcomes.len() ==> #[trigger] outcomes[i] == CandidateOutcome::ToolNotFound,
    ensures
        resolve_spec(outcomes) == Err::<Seq<char>, TranscribeError>(
            TranscribeError::AllCandidatesExhausted,
        ),
        tried_count(outcomes) == outcomes.len(),
{
    lemma_no_success_exhausts(outcomes);
}

/// When the first candidate runs and fails and the second succeeds, the
/// result is the second candidate's trimmed output; the first failure is
/// absorbed, never surfaced.
pub proof fn lemma_second_success_after_failure(outcomes: Seq<CandidateOutcome>, t: String)
    requires
        outcomes.len() >= 2,
        outcomes[0] == CandidateOutcome::ToolExecutionFailed,
        outcomes[1] == CandidateOutcome::Produced(t),
        trim_spec(t@).len() > 0,
    ensures
        resolve_spec(outcomes) == Ok::<Seq<char>, TranscribeError>(trim_spec(t@)),
        tried_count(outcomes) == 2,
{
    let rest = outcomes.drop_first();
    assert(rest[0] == outcomes[1]);
    assert(resolve_spec(outcomes) == resolve_spec(rest));
    assert(resolve_spec(rest) == Ok::<Seq<char>, TranscribeError>(trim_spec(t@)));
    assert(tried_count(outcomes) == 1 + tried_count(rest));
    assert(tried_count(rest) == 1);
}

} // verus!
