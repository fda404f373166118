//! Planning the one-shot model download.
//!
//! When the model file is absent, the application fetches it with the first
//! of two downloaders that works: curl, else wget.  The commands and the
//! outcome messages are fixed here; the application only runs the processes
//! and reports their exit.

use vstd::prelude::*;
use crate::runner::strings_view;

verus! {

/// One planned downloader call.
pub struct DownloadCommand {
    pub program: String,
    pub args: Vec<String>,
}

/// The source of the model file.
pub open spec fn model_url_spec() -> Seq<char> {
    "https://huggingface.co/ggerganov/whisper.cpp/resolve/main/ggml-base.bin"@
}

/// The downloader calls, in the order they are tried: curl, then wget, each
/// told to write the model file at `model_path`.
pub fn download_commands(model_path: &str) -> (r: Vec<DownloadCommand>)
    ensures
        r@.len() == 2,
        r@[0].program@ == "curl"@,
        strings_view(r@[0].args@) == seq!["-L"@, "-o"@, model_path@, model_url_spec()],
        r@[1].program@ == "wget"@,
        strings_view(r@[1].args@) == seq!["-O"@, model_path@, model_url_spec()],
{
    let mut curl_args: Vec<String> = Vec::new();
    curl_args.push(String::from_str("-L"));
    curl_args.push(String::from_str("-o"));
    curl_args.push(String::from_str(model_path));
    curl_args.push(String::from_str(
        "https://huggingface.co/ggerganov/whisper.cpp/resolve/main/ggml-base.bin",
    ));
    let mut wget_args: Vec<String> = Vec::new();
    wget_args.push(String::from_str("-O"));
    wget_args.push(String::from_str(model_path));
    wget_args.push(String::from_str(
        "https://huggingface.co/ggerganov/whisper.cpp/resolve/main/ggml-base.bin",
    ));
    proof {
        assert(strings_view(curl_args@) =~= seq!["-L"@, "-o"@, model_path@, model_url_spec()]);
        assert(strings_view(wget_args@) =~= seq!["-O"@, model_path@, model_url_spec()]);
    }
    let mut r: Vec<DownloadCommand> = Vec::new();
    r.push(DownloadCommand { program: String::from_str("curl"), args: curl_args });
    r.push(DownloadCommand { program: String::from_str("wget"), args: wget_args });
    r
}

/// What the model-download request returns, given whether the model file was
/// already present and how the downloaders fared.  A downloader that was
/// never run counts as not succeeded.
pub fn model_fetch_message(model_present: bool, curl_ok: bool, wget_ok: bool) -> (r: Result<
    String,
    String,
>)
    ensures
        model_present ==> (r matches Ok(m) && m@ == "Model already downloaded"@),
        !model_present && (curl_ok || wget_ok) ==> (r matches Ok(m) && m@
            == "Model downloaded successfully"@),
        !model_present && !curl_ok && !wget_ok ==> (r matches Err(m) && m@
            == "Failed to download model. Install curl or wget."@),
{
    if model_present {
        Ok(String::from_str("Model already downloaded"))
    } else if curl_ok || wget_ok {
        Ok(String::from_str("Model downloaded successfully"))
    } else {
        Err(String::from_str("Failed to download model. Install curl or wget."))
    }
}

} // verus!
