use voicekit::probe::{ProbeOutput, ProbeRun};
use voicekit::transcribe::{RunOutcome, TrAction, TrEvent, Transcription};

fn run_ok(stdout: &str, stderr: &str) -> TrEvent {
    TrEvent::Run(RunOutcome {
        spawned: true,
        spawn_error: String::new(),
        exit_ok: true,
        exit_code: Some(0),
        stdout: stdout.to_string(),
        stderr: stderr.to_string(),
    })
}

fn probe_completed(exit_ok: bool, stdout: &str) -> TrEvent {
    TrEvent::Help(ProbeRun::Completed(ProbeOutput {
        exit_ok,
        stdout: stdout.to_string(),
        stderr: String::new(),
    }))
}

fn start_with_override() -> (Transcription, TrAction) {
    Transcription::transcribe_audio(
        "/tmp/a.wav".to_string(),
        "en".to_string(),
        "base".to_string(),
        Some("/usr/bin/whisper".to_string()),
        Some("/home/u".to_string()),
    )
}

#[test]
fn successful_transcription_from_stdout() {
    let (mut m, a) = start_with_override();
    match &a {
        TrAction::Stat(p) => assert_eq!(p, "/tmp/a.wav"),
        _ => panic!("expected the audio stat"),
    }
    // The audio exists; the override is examined.
    let a = m.step(TrEvent::Exists(true));
    match &a {
        TrAction::Stat(p) => assert_eq!(p, "/usr/bin/whisper"),
        _ => panic!("expected the override stat"),
    }
    // The override exists; the installation directory decides the search
    // list.
    let a = m.step(TrEvent::Exists(true));
    match &a {
        TrAction::Stat(p) => assert_eq!(p, "/home/u/.voiceintelligence/whisper"),
        _ => panic!("expected the models-directory stat"),
    }
    // No models subdirectory; the first of five candidates is examined.
    let a = m.step(TrEvent::Exists(false));
    match &a {
        TrAction::Stat(p) => assert_eq!(
            p,
            "/home/u/.voiceintelligence/whisper/ggml-base.en.bin"
        ),
        _ => panic!("expected the first model stat"),
    }
    // The model exists; the engine runs with the fixed flag contract.
    let a = m.step(TrEvent::Exists(true));
    match &a {
        TrAction::RunEngine { program, args } => {
            assert_eq!(program, "/usr/bin/whisper");
            assert_eq!(
                args,
                &vec![
                    "-m".to_string(),
                    "/home/u/.voiceintelligence/whisper/ggml-base.en.bin".to_string(),
                    "-f".to_string(),
                    "/tmp/a.wav".to_string(),
                    "-l".to_string(),
                    "en".to_string(),
                    "--no-timestamps".to_string(),
                    "-otxt".to_string(),
                ]
            );
        },
        _ => panic!("expected the engine run"),
    }
    assert!(!m.used_fallback);
    let a = m.step(run_ok("hello world", ""));
    match a {
        TrAction::Done(Ok(r)) => {
            assert_eq!(r.text, "hello world");
            assert_eq!(r.language, "en");
            assert_eq!(r.duration_ms, 0);
        },
        _ => panic!("expected the transcription"),
    }
}

#[test]
fn missing_model_falls_back_to_restricted_variant() {
    let (mut m, _) = Transcription::transcribe_audio(
        "/tmp/a.wav".to_string(),
        "de".to_string(),
        "base".to_string(),
        Some("/usr/bin/whisper".to_string()),
        Some("/home/u".to_string()),
    );
    let _ = m.step(TrEvent::Exists(true)); // audio
    let _ = m.step(TrEvent::Exists(true)); // override
    // No models subdirectory: five candidate locations for ggml-base.bin.
    let a = m.step(TrEvent::Exists(false));
    match &a {
        TrAction::Stat(p) => assert_eq!(p, "/home/u/.voiceintelligence/whisper/ggml-base.bin"),
        _ => panic!("expected the first model stat"),
    }
    // All five are absent; the fallback scan of ggml-base.en.bin begins.
    for _ in 0..4 {
        let a = m.step(TrEvent::Exists(false));
        assert!(matches!(a, TrAction::Stat(_)));
    }
    let a = m.step(TrEvent::Exists(false));
    match &a {
        TrAction::Stat(p) => assert_eq!(
            p,
            "/home/u/.voiceintelligence/whisper/ggml-base.en.bin"
        ),
        _ => panic!("expected the first fallback stat"),
    }
    // The restricted file is present: the transcription proceeds with it and
    // the fallback is surfaced as a warning flag, not a failure.
    let a = m.step(TrEvent::Exists(true));
    match &a {
        TrAction::RunEngine { args, .. } => {
            assert_eq!(args[1], "/home/u/.voiceintelligence/whisper/ggml-base.en.bin");
            assert_eq!(args[5], "de");
        },
        _ => panic!("expected the engine run"),
    }
    assert!(m.used_fallback);
    let a = m.step(run_ok("hallo welt", ""));
    match a {
        TrAction::Done(Ok(r)) => {
            assert_eq!(r.text, "hallo welt");
            assert_eq!(r.language, "de");
        },
        _ => panic!("expected the transcription"),
    }
}

#[test]
fn empty_stdout_reads_and_deletes_side_file() {
    let (mut m, _) = start_with_override();
    let _ = m.step(TrEvent::Exists(true)); // audio
    let _ = m.step(TrEvent::Exists(true)); // override
    let _ = m.step(TrEvent::Exists(false)); // models dir
    let _ = m.step(TrEvent::Exists(true)); // first model candidate
    // The engine succeeds but prints nothing: the side file with the
    // appended extension is examined first.
    let a = m.step(run_ok("", ""));
    match &a {
        TrAction::Stat(p) => assert_eq!(p, "/tmp/a.wav.txt"),
        _ => panic!("expected the side-file stat"),
    }
    let a = m.step(TrEvent::Exists(true));
    match &a {
        TrAction::ReadFile(p) => assert_eq!(p, "/tmp/a.wav.txt"),
        _ => panic!("expected the side-file read"),
    }
    let a = m.step(TrEvent::FileRead(Some("  quiet room  ".to_string())));
    match &a {
        TrAction::DeleteFile(p) => assert_eq!(p, "/tmp/a.wav.txt"),
        _ => panic!("expected the side-file delete"),
    }
    let a = m.step(TrEvent::Deleted);
    match a {
        TrAction::Done(Ok(r)) => assert_eq!(r.text, "quiet room"),
        _ => panic!("expected the trimmed side-file text"),
    }
}

#[test]
fn second_side_file_replaces_extension() {
    let (mut m, _) = start_with_override();
    let _ = m.step(TrEvent::Exists(true));
    let _ = m.step(TrEvent::Exists(true));
    let _ = m.step(TrEvent::Exists(false));
    let _ = m.step(TrEvent::Exists(true));
    let _ = m.step(run_ok("", ""));
    // The appended-extension side file is absent; the replaced-extension one
    // is examined.
    let a = m.step(TrEvent::Exists(false));
    match &a {
        TrAction::Stat(p) => assert_eq!(p, "/tmp/a.txt"),
        _ => panic!("expected the second side-file stat"),
    }
    let _ = m.step(TrEvent::Exists(true));
    let _ = m.step(TrEvent::FileRead(Some("text two".to_string())));
    let a = m.step(TrEvent::Deleted);
    match a {
        TrAction::Done(Ok(r)) => assert_eq!(r.text, "text two"),
        _ => panic!("expected the second side-file text"),
    }
}

#[test]
fn audio_named_like_a_side_file_is_never_deleted() {
    // The audio path already ends in .txt, so the replaced-extension side
    // name is the audio file itself: it is neither read nor deleted, and the
    // run ends as an empty result.
    let (mut m, _) = Transcription::transcribe_audio(
        "/tmp/a.txt".to_string(),
        "en".to_string(),
        "base".to_string(),
        Some("/usr/bin/whisper".to_string()),
        Some("/home/u".to_string()),
    );
    let _ = m.step(TrEvent::Exists(true)); // audio
    let _ = m.step(TrEvent::Exists(true)); // override
    let _ = m.step(TrEvent::Exists(false)); // models dir
    let _ = m.step(TrEvent::Exists(true)); // model found
    let a = m.step(run_ok("", "diag"));
    match &a {
        TrAction::Stat(p) => assert_eq!(p, "/tmp/a.txt.txt"),
        _ => panic!("expected the appended side-file stat"),
    }
    // The appended side file is absent; the replaced name would be the audio
    // itself, so the run gives up at once instead of touching it.
    let a = m.step(TrEvent::Exists(false));
    match a {
        TrAction::Done(Err(e)) => {
            assert!(e.starts_with("Whisper returned empty transcription."));
        },
        _ => panic!("expected the empty-result failure"),
    }
}

#[test]
fn no_text_anywhere_is_an_empty_result_failure() {
    let (mut m, _) = start_with_override();
    let _ = m.step(TrEvent::Exists(true));
    let _ = m.step(TrEvent::Exists(true));
    let _ = m.step(TrEvent::Exists(false));
    let _ = m.step(TrEvent::Exists(true));
    let _ = m.step(run_ok("", "some diagnostics"));
    let _ = m.step(TrEvent::Exists(false)); // side file A absent
    let a = m.step(TrEvent::Exists(false)); // side file B absent
    match a {
        TrAction::Done(Err(e)) => {
            assert!(e.starts_with("Whisper returned empty transcription."));
            assert!(e.contains("some diagnostics"));
        },
        _ => panic!("expected the empty-result failure"),
    }
}

#[test]
fn missing_audio_fails_before_anything_else() {
    let (mut m, _) = start_with_override();
    let a = m.step(TrEvent::Exists(false));
    match a {
        TrAction::Done(Err(e)) => assert_eq!(e, "Audio file not found: /tmp/a.wav"),
        _ => panic!("expected the audio failure"),
    }
}

#[test]
fn engine_failure_carries_exit_code_and_streams() {
    let (mut m, _) = start_with_override();
    let _ = m.step(TrEvent::Exists(true));
    let _ = m.step(TrEvent::Exists(true));
    let _ = m.step(TrEvent::Exists(false));
    let _ = m.step(TrEvent::Exists(true));
    let a = m.step(TrEvent::Run(RunOutcome {
        spawned: true,
        spawn_error: String::new(),
        exit_ok: false,
        exit_code: Some(1),
        stdout: "out text".to_string(),
        stderr: "err text".to_string(),
    }));
    match a {
        TrAction::Done(Err(e)) => {
            assert!(e.starts_with("Whisper transcription failed (exit code: Some(1))."));
            assert!(e.contains("err text"));
            assert!(e.contains("out text"));
            assert!(e.contains("/usr/bin/whisper -m "));
        },
        _ => panic!("expected the run failure"),
    }
}

#[test]
fn total_engine_failure_enumerates_every_checked_location() {
    let (mut m, _) = Transcription::transcribe_audio(
        "/tmp/a.wav".to_string(),
        "en".to_string(),
        "base".to_string(),
        Some("/gone/whisper".to_string()),
        Some("/home/u".to_string()),
    );
    let _ = m.step(TrEvent::Exists(true)); // audio
    // The saved path is absent; the search walks the installation directory.
    let a = m.step(TrEvent::Exists(false));
    match &a {
        TrAction::Stat(p) => assert_eq!(
            p,
            "/home/u/.voiceintelligence/whisper/whisper.exe"
        ),
        _ => panic!("expected the first installation candidate"),
    }
    for _ in 0..3 {
        let a = m.step(TrEvent::Exists(false));
        assert!(matches!(a, TrAction::Stat(_)));
    }
    // Then the search-path commands are probed; none succeeds.
    let a = m.step(TrEvent::Exists(false));
    match &a {
        TrAction::RunHelp(p) => assert_eq!(p, "whisper"),
        _ => panic!("expected the whisper probe"),
    }
    let _ = m.step(probe_completed(false, ""));
    let _ = m.step(TrEvent::Help(ProbeRun::SpawnFailed));
    let a = m.step(TrEvent::Help(ProbeRun::TimedOut));
    match a {
        TrAction::Done(Err(e)) => {
            assert!(e.starts_with("Whisper binary not found. Saved path '/gone/whisper'"));
            for loc in [
                "/gone/whisper",
                "/home/u/.voiceintelligence/whisper/whisper.exe",
                "/home/u/.voiceintelligence/whisper/main.exe",
                "/home/u/.voiceintelligence/whisper/whisper",
                "/home/u/.voiceintelligence/whisper/main",
                "whisper-cpp",
                "main",
            ] {
                assert!(e.contains(loc), "missing location {loc} in {e}");
            }
        },
        _ => panic!("expected the engine failure"),
    }
}

#[test]
fn bare_command_engine_is_used_once_probed() {
    let (mut m, _) = Transcription::transcribe_audio(
        "/tmp/a.wav".to_string(),
        "en".to_string(),
        "base".to_string(),
        None,
        None,
    );
    let _ = m.step(TrEvent::Exists(true)); // audio; no home: probes begin
    let _ = m.step(probe_completed(false, "")); // whisper
    let _ = m.step(TrEvent::Help(ProbeRun::SpawnFailed)); // whisper-cpp
    // The bare command `main` probes successfully and is used as the engine.
    let a = m.step(probe_completed(true, ""));
    match &a {
        TrAction::Stat(p) => assert_eq!(p, "/.voiceintelligence/whisper"),
        _ => panic!("expected the models-directory stat"),
    }
    let _ = m.step(TrEvent::Exists(false)); // models dir
    let a = m.step(TrEvent::Exists(true)); // first model candidate
    match &a {
        TrAction::RunEngine { program, .. } => assert_eq!(program, "main"),
        _ => panic!("expected the engine run"),
    }
}

#[test]
fn cancellation_decides_at_once() {
    let (mut m, _) = start_with_override();
    let _ = m.step(TrEvent::Exists(true));
    let _ = m.step(TrEvent::Exists(true));
    let _ = m.step(TrEvent::Exists(false));
    let _ = m.step(TrEvent::Exists(true));
    // The run is in flight; the caller raises its cancellation signal.
    let a = m.step(TrEvent::Cancel);
    match a {
        TrAction::Done(Err(e)) => assert_eq!(e, "Transcription cancelled"),
        _ => panic!("expected the cancelled outcome"),
    }
}

#[test]
fn missing_model_error_reaches_caller() {
    let (mut m, _) = start_with_override();
    let _ = m.step(TrEvent::Exists(true));
    let _ = m.step(TrEvent::Exists(true));
    let _ = m.step(TrEvent::Exists(false)); // models dir
    let mut last = TrAction::Stat(String::new());
    for _ in 0..5 {
        last = m.step(TrEvent::Exists(false));
    }
    match last {
        TrAction::Done(Err(e)) => {
            assert!(e.starts_with("Whisper model 'ggml-base.en.bin' not found. Searched in:"));
            assert!(e.contains("/home/u/.voiceintelligence/whisper/ggml-base.en.bin"));
        },
        _ => panic!("expected the model failure"),
    }
}
