//! Names for the temporary files of one transcription request.
//!
//! A request stages its audio under a name derived from the process id and a
//! request-scoped token, so that concurrent requests never collide: distinct
//! (pid, token) pairs give distinct names, which is proved here.

use vstd::prelude::*;
use crate::numerals::{
    decimal_rendering, is_decimal_digit_char, lemma_decimal_rendering_digits,
    lemma_decimal_rendering_injective, render_decimal,
};

verus! {

/// The part of a temporary name that identifies the request:
/// the process id and the request token, in decimal, joined by an underscore.
pub open spec fn request_stem(pid: nat, token: nat) -> Seq<char> {
    decimal_rendering(pid) + seq!['_'] + decimal_rendering(token)
}

/// The name of the staged audio input file.
pub open spec fn input_file_name(pid: nat, token: nat) -> Seq<char> {
    "whisper_input_"@ + request_stem(pid, token) + ".wav"@
}

/// The base name handed to a tool that writes its own text artifact;
/// the artifact appears under this name with ".txt" appended.
pub open spec fn output_base_name(pid: nat, token: nat) -> Seq<char> {
    "whisper_output_"@ + request_stem(pid, token)
}

/// The name of the text artifact a tool writes for this request.
pub open spec fn output_artifact_name(pid: nat, token: nat) -> Seq<char> {
    output_base_name(pid, token) + ".txt"@
}

/// A name placed in a directory: the directory, a slash, the name.
pub open spec fn path_in_dir(dir: Seq<char>, name: Seq<char>) -> Seq<char> {
    dir + seq!['/'] + name
}

/// Two sequences joined by a marker that occurs in neither part are joined
/// unambiguously.
proof fn lemma_marked_join_injective(
    a1: Seq<char>,
    b1: Seq<char>,
    a2: Seq<char>,
    b2: Seq<char>,
    m: char,
)
    requires
        forall|i: int| 0 <= i < a1.len() ==> a1[i] != m,
        forall|i: int| 0 <= i < a2.len() ==> a2[i] != m,
        a1 + seq![m] + b1 == a2 + seq![m] + b2,
    ensures
        a1 == a2,
        b1 == b2,
{
    let s1 = a1 + seq![m] + b1;
    let s2 = a2 + seq![m] + b2;
    assert(s1.len() == a1.len() + 1 + b1.len());
    assert(s2.len() == a2.len() + 1 + b2.len());
    if a1.len() < a2.len() {
        let k = a1.len() as int;
        assert(s1[k] == m);
        assert(s2[k] == a2[k]);
        assert(false);
    }
    if a2.len() < a1.len() {
        let k = a2.len() as int;
        assert(s2[k] == m);
        assert(s1[k] == a1[k]);
        assert(false);
    }
    let la = a1.len() as int;
    assert(a1 =~= a2) by {
        assert forall|i: int| 0 <= i < la implies a1[i] == a2[i] by {
            assert(s1[i] == a1[i]);
            assert(s2[i] == a2[i]);
        }
    }
    assert(b1 =~= b2) by {
        assert forall|i: int| 0 <= i < b1.len() implies b1[i] == b2[i] by {
            assert(s1[la + 1 + i] == b1[i]);
            assert(s2[la + 1 + i] == b2[i]);
        }
    }
}

/// Distinct (pid, token) pairs have distinct request stems.
pub proof fn lemma_request_stem_injective(p1: nat, t1: nat, p2: nat, t2: nat)
    requires
        request_stem(p1, t1) == request_stem(p2, t2),
    ensures
        p1 == p2,
        t1 == t2,
{
    lemma_decimal_rendering_digits(p1);
    lemma_decimal_rendering_digits(p2);
    assert(forall|i: int|
        0 <= i < decimal_rendering(p1).len() ==> is_decimal_digit_char(
            #[trigger] decimal_rendering(p1)[i],
        ) && decimal_rendering(p1)[i] != '_');
    assert(forall|i: int|
        0 <= i < decimal_rendering(p2).len() ==> is_decimal_digit_char(
            #[trigger] decimal_rendering(p2)[i],
        ) && decimal_rendering(p2)[i] != '_');
    lemma_marked_join_injective(
        decimal_rendering(p1),
        decimal_rendering(t1),
        decimal_rendering(p2),
        decimal_rendering(t2),
        '_',
    );
    lemma_decimal_rendering_injective(p1, p2);
    lemma_decimal_rendering_injective(t1, t2);
}

/// A fixed prefix and a fixed suffix around distinct middles keep them
/// distinct.
proof fn lemma_wrap_keeps_distinct(
    pre: Seq<char>,
    mid1: Seq<char>,
    mid2: Seq<char>,
    post: Seq<char>,
)
    requires
        mid1 != mid2,
    ensures
        pre + mid1 + post != pre + mid2 + post,
{
    if pre + mid1 + post == pre + mid2 + post {
        assert((pre + mid1 + post).len() == pre.len() + mid1.len() + post.len());
        assert((pre + mid2 + post).len() == pre.len() + mid2.len() + post.len());
        assert(mid1.len() == mid2.len());
        let lp = pre.len() as int;
        assert(mid1 =~= mid2) by {
            assert forall|i: int| 0 <= i < mid1.len() implies mid1[i] == mid2[i] by {
                assert((pre + mid1 + post)[lp + i] == mid1[i]);
                assert((pre + mid2 + post)[lp + i] == mid2[i]);
            }
        }
        assert(false);
    }
}

/// Distinct requests stage their audio under distinct input file names.
pub proof fn lemma_input_file_names_distinct(p1: nat, t1: nat, p2: nat, t2: nat)
    requires
        p1 != p2 || t1 != t2,
    ensures
        input_file_name(p1, t1) != input_file_name(p2, t2),
{
    if request_stem(p1, t1) == request_stem(p2, t2) {
        lemma_request_stem_injective(p1, t1, p2, t2);
    }
    lemma_wrap_keeps_distinct(
        "whisper_input_"@,
        request_stem(p1, t1),
        request_stem(p2, t2),
        ".wav"@,
    );
}

/// Distinct requests expect their text artifacts under distinct names.
pub proof fn lemma_output_artifact_names_distinct(p1: nat, t1: nat, p2: nat, t2: nat)
    requires
        p1 != p2 || t1 != t2,
    ensures
        output_artifact_name(p1, t1) != output_artifact_name(p2, t2),
{
    if request_stem(p1, t1) == request_stem(p2, t2) {
        lemma_request_stem_injective(p1, t1, p2, t2);
    }
    assert(output_artifact_name(p1, t1) =~= "whisper_output_"@ + request_stem(p1, t1) + ".txt"@);
    assert(output_artifact_name(p2, t2) =~= "whisper_output_"@ + request_stem(p2, t2) + ".txt"@);
    lemma_wrap_keeps_distinct(
        "whisper_output_"@,
        request_stem(p1, t1),
        request_stem(p2, t2),
        ".txt"@,
    );
}

/// An input file name is never an output artifact name, whatever the
/// requests: the two fixed prefixes differ.
pub proof fn lemma_input_never_output(p1: nat, t1: nat, p2: nat, t2: nat)
    ensures
        input_file_name(p1, t1) != output_artifact_name(p2, t2),
{
    reveal_strlit("whisper_input_");
    reveal_strlit("whisper_output_");
    if input_file_name(p1, t1) == output_artifact_name(p2, t2) {
        assert(input_file_name(p1, t1)[8] == 'i');
        assert(output_artifact_name(p2, t2)[8] == 'o');
        assert(false);
    }
}

/// Distinct names give distinct paths in the same directory.
pub proof fn lemma_paths_in_dir_distinct(dir: Seq<char>, n1: Seq<char>, n2: Seq<char>)
    requires
        n1 != n2,
    ensures
        path_in_dir(dir, n1) != path_in_dir(dir, n2),
{
    if path_in_dir(dir, n1) == path_in_dir(dir, n2) {
        let ld = dir.len() as int;
        assert((dir + seq!['/'] + n1).len() == dir.len() + 1 + n1.len());
        assert((dir + seq!['/'] + n2).len() == dir.len() + 1 + n2.len());
        assert(n1.len() == n2.len());
        assert(n1 =~= n2) by {
            assert forall|i: int| 0 <= i < n1.len() implies n1[i] == n2[i] by {
                assert((dir + seq!['/'] + n1)[ld + 1 + i] == n1[i]);
                assert((dir + seq!['/'] + n2)[ld + 1 + i] == n2[i]);
            }
        }
        assert(false);
    }
}

/// Concurrent requests with distinct (pid, token) identities never collide
/// on temporary paths in the shared directory: the two staged inputs differ,
/// the two expected artifacts differ, and an input never collides with an
/// artifact.
pub proof fn lemma_requests_never_collide(dir: Seq<char>, p1: nat, t1: nat, p2: nat, t2: nat)
    requires
        p1 != p2 || t1 != t2,
    ensures
        path_in_dir(dir, input_file_name(p1, t1)) != path_in_dir(dir, input_file_name(p2, t2)),
        path_in_dir(dir, output_artifact_name(p1, t1)) != path_in_dir(
            dir,
            output_artifact_name(p2, t2),
        ),
        path_in_dir(dir, input_file_name(p1, t1)) != path_in_dir(
            dir,
            output_artifact_name(p2, t2),
        ),
{
    lemma_input_file_names_distinct(p1, t1, p2, t2);
    lemma_paths_in_dir_distinct(dir, input_file_name(p1, t1), input_file_name(p2, t2));
    lemma_output_artifact_names_distinct(p1, t1, p2, t2);
    lemma_paths_in_dir_distinct(dir, output_artifact_name(p1, t1), output_artifact_name(p2, t2));
    lemma_input_never_output(p1, t1, p2, t2);
    lemma_paths_in_dir_distinct(dir, input_file_name(p1, t1), output_artifact_name(p2, t2));
}

/// Render the request stem.
fn render_request_stem(pid: u64, token: u64) -> (r: String)
    ensures
        r@ == request_stem(pid as nat, token as nat),
{
    proof {
        reveal_strlit("_");
    }
    let r = render_decimal(pid).concat("_").concat(render_decimal(token).as_str());
    proof {
        assert("_"@ =~= seq!['_']);
        assert(r@ =~= request_stem(pid as nat, token as nat));
    }
    r
}

/// Render the staged audio input file's name.
pub fn render_input_file_name(pid: u64, token: u64) -> (r: String)
    ensures
        r@ == input_file_name(pid as nat, token as nat),
{
    let r = String::from_str("whisper_input_").concat(
        render_request_stem(pid, token).as_str(),
    ).concat(".wav");
    proof {
        assert(r@ =~= input_file_name(pid as nat, token as nat));
    }
    r
}

/// Render the output base name handed to a tool.
pub fn render_output_base_name(pid: u64, token: u64) -> (r: String)
    ensures
        r@ == output_base_name(pid as nat, token as nat),
{
    let r = String::from_str("whisper_output_").concat(render_request_stem(pid, token).as_str());
    proof {
        assert(r@ =~= output_base_name(pid as nat, token as nat));
    }
    r
}

/// Render the name of the text artifact a tool writes.
pub fn render_output_artifact_name(pid: u64, token: u64) -> (r: String)
    ensures
        r@ == output_artifact_name(pid as nat, token as nat),
{
    let r = render_output_base_name(pid, token).concat(".txt");
    proof {
        assert(r@ =~= output_artifact_name(pid as nat, token as nat));
    }
    r
}

/// Place a name in a directory.
pub fn render_path_in_dir(dir: &str, name: &str) -> (r: String)
    ensures
        r@ == path_in_dir(dir@, name@),
{
    proof {
        reveal_strlit("/");
    }
    let r = String::from_str(dir).concat("/").concat(name);
    proof {
        assert("/"@ =~= seq!['/']);
        assert(r@ =~= path_in_dir(dir@, name@));
    }
    r
}

/// The expected location of the transcription model under a home directory.
pub fn render_model_file_path(home: &str) -> (r: String)
    ensures
        r@ == home@ + "/.cache/whisper/ggml-base.bin"@,
{
    String::from_str(home).concat("/.cache/whisper/ggml-base.bin")
}

} // verus!
