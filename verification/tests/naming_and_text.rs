use std::collections::HashSet;

use whisper_fallback::naming::{
    render_input_file_name, render_model_file_path, render_output_artifact_name,
    render_output_base_name, render_path_in_dir,
};
use whisper_fallback::numerals::render_decimal;
use whisper_fallback::text::trim_text;

#[test]
fn decimal_rendering_examples() {
    assert_eq!(render_decimal(0), "0");
    assert_eq!(render_decimal(7), "7");
    assert_eq!(render_decimal(10), "10");
    assert_eq!(render_decimal(1234567890), "1234567890");
    assert_eq!(render_decimal(u64::MAX), "18446744073709551615");
}

#[test]
fn temporary_names_follow_the_scheme() {
    assert_eq!(render_input_file_name(111, 7), "whisper_input_111_7.wav");
    assert_eq!(render_output_base_name(111, 7), "whisper_output_111_7");
    assert_eq!(render_output_artifact_name(111, 7), "whisper_output_111_7.txt");
}

#[test]
fn paths_join_with_a_slash() {
    assert_eq!(
        render_path_in_dir("/tmp", "whisper_input_1_2.wav"),
        "/tmp/whisper_input_1_2.wav"
    );
}

#[test]
fn model_path_sits_under_home_cache() {
    assert_eq!(
        render_model_file_path("/home/user"),
        "/home/user/.cache/whisper/ggml-base.bin"
    );
}

#[test]
fn concurrent_requests_never_share_a_name() {
    // Many (pid, token) pairs, including ones whose digits could run
    // together ambiguously: every temporary name distinct.
    let pairs = [
        (1u64, 11u64),
        (11, 1),
        (111, 7),
        (11, 17),
        (1, 117),
        (117, 1),
        (12, 34),
        (123, 4),
        (1, 234),
        (1234, 9),
    ];
    let mut input_names = HashSet::new();
    let mut artifact_names = HashSet::new();
    for (pid, token) in pairs {
        assert!(input_names.insert(render_input_file_name(pid, token)));
        assert!(artifact_names.insert(render_output_artifact_name(pid, token)));
    }
    // An input name never collides with an artifact name either.
    for name in &input_names {
        assert!(!artifact_names.contains(name));
    }
}

#[test]
fn trim_removes_surrounding_whitespace_only() {
    assert_eq!(trim_text("  hello world \n"), "hello world");
    assert_eq!(trim_text("\t\r\nhello\u{b}\u{c}"), "hello");
    assert_eq!(trim_text("no padding"), "no padding");
    assert_eq!(trim_text("inner  space kept \n"), "inner  space kept");
}

#[test]
fn trim_of_blank_input_is_empty() {
    assert_eq!(trim_text(""), "");
    assert_eq!(trim_text("   \n\t  "), "");
}

#[test]
fn trim_handles_multibyte_text() {
    assert_eq!(trim_text("  xin chào \n"), "xin chào");
}

#[test]
fn trim_removes_unicode_whitespace() {
    assert_eq!(trim_text("\u{85}\u{a0}hello\u{2000}\u{3000}"), "hello");
    assert_eq!(trim_text("\u{2028}\u{202f}ok\u{205f}\u{1680}"), "ok");
    // The same characters inside the text stay.
    assert_eq!(trim_text(" a\u{a0}b "), "a\u{a0}b");
}
