use voicekit::paths::{model_fallback_paths, model_search_paths};
use voicekit::selector::{chosen_file_name, english_file_name, get_model_path, multilingual_file_name};

#[test]
fn file_names_by_size_and_language() {
    assert_eq!(chosen_file_name("base", "en"), "ggml-base.en.bin");
    assert_eq!(chosen_file_name("base", "de"), "ggml-base.bin");
    assert_eq!(chosen_file_name("base.en", "en"), "ggml-base.en.bin");
    assert_eq!(chosen_file_name("tiny", "no"), "ggml-tiny.bin");
    assert_eq!(chosen_file_name("small", "en"), "ggml-small.en.bin");
    assert_eq!(chosen_file_name("medium", "fr"), "ggml-medium.bin");
    // The large size has no language-restricted variant.
    assert_eq!(chosen_file_name("large", "en"), "ggml-large.bin");
    assert_eq!(chosen_file_name("large", "de"), "ggml-large.bin");
    // Unknown tags fall back to the base size.
    assert_eq!(chosen_file_name("huge", "en"), "ggml-base.en.bin");
    assert_eq!(chosen_file_name("huge", "de"), "ggml-base.bin");
    assert_eq!(english_file_name("medium.en"), "ggml-medium.en.bin");
    assert_eq!(multilingual_file_name("small.en"), "ggml-small.bin");
}

#[test]
fn search_paths_in_fixed_order() {
    let paths = model_search_paths("/home/u", "ggml-base.bin", false);
    assert_eq!(
        paths,
        vec![
            "/home/u/.voiceintelligence/whisper/ggml-base.bin".to_string(),
            "/home/u/.cache/whisper/ggml-base.bin".to_string(),
            "/home/u/whisper.cpp/models/ggml-base.bin".to_string(),
            "models/ggml-base.bin".to_string(),
            "ggml-base.bin".to_string(),
        ]
    );
    let with_dir = model_search_paths("/home/u", "ggml-base.bin", true);
    assert_eq!(with_dir.len(), 6);
    assert_eq!(
        with_dir[0],
        "/home/u/.voiceintelligence/whisper/models/ggml-base.bin"
    );
    assert_eq!(&with_dir[1..], &paths[..]);
}

#[test]
fn selection_prefers_first_existing_candidate() {
    let primary = vec![false, true, true, false, false];
    let fallback = vec![false, false, false];
    let r = get_model_path("base", "en", "/home/u", false, &primary, &fallback).unwrap();
    assert_eq!(r.path, "/home/u/.cache/whisper/ggml-base.en.bin");
    assert!(!r.used_fallback);
}

#[test]
fn fallback_selected_when_multilingual_absent() {
    // Language "de" with size "base": ggml-base.bin absent everywhere,
    // ggml-base.en.bin present in the installation directory.
    let primary = vec![false; 5];
    let fallback = vec![true, false, false];
    let r = get_model_path("base", "de", "/home/u", false, &primary, &fallback).unwrap();
    assert_eq!(r.path, "/home/u/.voiceintelligence/whisper/ggml-base.en.bin");
    assert!(r.used_fallback);
}

#[test]
fn missing_model_error_enumerates_paths_and_url() {
    let primary = vec![false; 5];
    let fallback = vec![false, false, false];
    let err = get_model_path("base", "de", "/home/u", false, &primary, &fallback).unwrap_err();
    assert!(err.starts_with("Whisper model 'ggml-base.bin' not found. Searched in:"));
    for p in model_search_paths("/home/u", "ggml-base.bin", false) {
        assert!(err.contains(&p), "missing path {p} in {err}");
    }
    assert!(err.contains("For de transcription"));
    assert!(err.contains(
        "https://huggingface.co/ggerganov/whisper.cpp/resolve/main/ggml-base.bin"
    ));
}

#[test]
fn missing_english_model_error_has_no_fallback_hint() {
    let primary = vec![false; 5];
    let fallback = vec![true, true, true];
    // For the default language no fallback applies even when the restricted
    // file exists: the chosen file already is the restricted one.
    let err = get_model_path("base", "en", "/home/u", false, &primary, &fallback).unwrap_err();
    assert!(err.starts_with("Whisper model 'ggml-base.en.bin' not found. Searched in:"));
    assert!(!err.contains("transcription, you need the multilingual model"));
}

#[test]
fn fallback_paths_in_fixed_order() {
    let paths = model_fallback_paths("/home/u", "ggml-base.en.bin");
    assert_eq!(
        paths,
        vec![
            "/home/u/.voiceintelligence/whisper/ggml-base.en.bin".to_string(),
            "/home/u/.cache/whisper/ggml-base.en.bin".to_string(),
            "/home/u/whisper.cpp/models/ggml-base.en.bin".to_string(),
        ]
    );
}
