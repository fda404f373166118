use base64::Engine;

use whisper_fallback::audio::decode_audio_payload;
use whisper_fallback::errors::TranscribeError;
use whisper_fallback::mic_mode::mic_mode_name;
use whisper_fallback::model::{download_commands, model_fetch_message};
use whisper_fallback::probe::{any_probe_succeeded, probe_commands};

#[test]
fn decodes_base64_audio() {
    // "aGVsbG8=" is the standard-alphabet encoding of b"hello".
    assert_eq!(decode_audio_payload("aGVsbG8="), Ok(b"hello".to_vec()));
    assert_eq!(decode_audio_payload(""), Ok(Vec::new()));
}

#[test]
fn decode_round_trips_through_the_encoder() {
    let bytes: Vec<u8> = (0u8..=255).collect();
    let encoded = base64::engine::general_purpose::STANDARD.encode(&bytes);
    assert_eq!(decode_audio_payload(&encoded), Ok(bytes));
}

#[test]
fn rejects_invalid_base64() {
    let r = decode_audio_payload("!!! not base64 !!!");
    let e = r.expect_err("invalid base64 must be rejected");
    assert!(matches!(e, TranscribeError::AudioDecodeFailed(_)));
    let msg = e.message();
    assert!(msg.starts_with("Failed to decode audio: "));
    assert!(msg.len() > "Failed to decode audio: ".len());
}

#[test]
fn probe_list_matches_known_tools() {
    let cmds = probe_commands();
    assert_eq!(cmds, vec!["whisper", "whisper-cpp", "main", "faster-whisper"]);
}

#[test]
fn availability_is_any_probe() {
    assert!(!any_probe_succeeded(&vec![]));
    assert!(!any_probe_succeeded(&vec![false, false, false, false]));
    assert!(any_probe_succeeded(&vec![false, false, true, false]));
    assert!(any_probe_succeeded(&vec![true]));
}

#[test]
fn download_plan_tries_curl_then_wget() {
    let cmds = download_commands("/home/user/.cache/whisper/ggml-base.bin");
    assert_eq!(cmds.len(), 2);
    assert_eq!(cmds[0].program, "curl");
    assert_eq!(
        cmds[0].args,
        vec![
            "-L",
            "-o",
            "/home/user/.cache/whisper/ggml-base.bin",
            "https://huggingface.co/ggerganov/whisper.cpp/resolve/main/ggml-base.bin",
        ]
    );
    assert_eq!(cmds[1].program, "wget");
    assert_eq!(
        cmds[1].args,
        vec![
            "-O",
            "/home/user/.cache/whisper/ggml-base.bin",
            "https://huggingface.co/ggerganov/whisper.cpp/resolve/main/ggml-base.bin",
        ]
    );
}

#[test]
fn model_fetch_messages_cover_every_case() {
    assert_eq!(
        model_fetch_message(true, false, false),
        Ok("Model already downloaded".to_string())
    );
    assert_eq!(
        model_fetch_message(false, true, false),
        Ok("Model downloaded successfully".to_string())
    );
    assert_eq!(
        model_fetch_message(false, false, true),
        Ok("Model downloaded successfully".to_string())
    );
    assert_eq!(
        model_fetch_message(false, false, false),
        Err("Failed to download model. Install curl or wget.".to_string())
    );
}

#[test]
fn mic_mode_names() {
    assert_eq!(mic_mode_name(0), "standard");
    assert_eq!(mic_mode_name(1), "wideSpectrum");
    assert_eq!(mic_mode_name(2), "voiceIsolation");
    assert_eq!(mic_mode_name(3), "unknown");
    assert_eq!(mic_mode_name(-1), "unknown");
}
