use voicekit::install::{InstAction, InstEvent, InstallFlow, Platform};
use voicekit::ollama::{
    check_ollama_available, ollama_base_url, ollama_model_from_fields, ollama_models_failure,
    ollama_models_ok, ollama_tags_endpoint, ollama_version_endpoint, OllamaFailure,
};

fn proc_ok() -> InstEvent {
    InstEvent::Proc { spawned: true, spawn_error: String::new(), exit_ok: true }
}

#[test]
fn install_without_home_fails() {
    let (_, a) = InstallFlow::install_whisper(Platform::Windows, None);
    match a {
        InstAction::Done(Err(e)) => assert_eq!(e, "Could not find home directory"),
        _ => panic!("expected the failure"),
    }
}

#[test]
fn install_on_linux_reports_manual_instructions() {
    let (mut m, a) = InstallFlow::install_whisper(Platform::Linux, Some("/home/u"));
    match &a {
        InstAction::Stat(p) => assert_eq!(p, "/home/u/.voiceintelligence/whisper"),
        _ => panic!("expected the directory stat"),
    }
    let a = m.step(InstEvent::Exists(true));
    match a {
        InstAction::Done(Ok(r)) => {
            assert!(!r.success);
            assert_eq!(
                r.message,
                "Please install whisper.cpp manually: https://github.com/ggerganov/whisper.cpp"
            );
            assert_eq!(r.path, None);
        },
        _ => panic!("expected the instructions"),
    }
}

#[test]
fn install_on_unknown_platform_is_unsupported() {
    let (mut m, _) = InstallFlow::install_whisper(Platform::Other, Some("/home/u"));
    let a = m.step(InstEvent::Exists(true));
    match a {
        InstAction::Done(Ok(r)) => {
            assert!(!r.success);
            assert_eq!(r.message, "Unsupported platform");
        },
        _ => panic!("expected the decision"),
    }
}

#[test]
fn install_on_macos_uses_package_manager() {
    let (mut m, _) = InstallFlow::install_whisper(Platform::MacOs, Some("/home/u"));
    let a = m.step(InstEvent::Exists(true));
    assert!(matches!(a, InstAction::RunBrew));
    let a = m.step(proc_ok());
    match a {
        InstAction::Done(Ok(r)) => {
            assert!(r.success);
            assert_eq!(r.message, "Whisper.cpp installed via Homebrew");
            assert_eq!(r.path.as_deref(), Some("whisper"));
        },
        _ => panic!("expected the success"),
    }
}

#[test]
fn install_on_macos_reports_brew_failure() {
    let (mut m, _) = InstallFlow::install_whisper(Platform::MacOs, Some("/home/u"));
    let _ = m.step(InstEvent::Exists(true));
    let a = m.step(InstEvent::Proc {
        spawned: false,
        spawn_error: "brew not found".to_string(),
        exit_ok: false,
    });
    match a {
        InstAction::Done(Ok(r)) => {
            assert!(!r.success);
            assert_eq!(
                r.message,
                "Failed to install via Homebrew. Please run: brew install whisper-cpp"
            );
        },
        _ => panic!("expected the reported failure"),
    }
}

#[test]
fn install_on_windows_full_route() {
    let dir = "/home/u/.voiceintelligence/whisper";
    let (mut m, _) = InstallFlow::install_whisper(Platform::Windows, Some("/home/u"));
    // The directory is missing and gets created.
    let a = m.step(InstEvent::Exists(false));
    match &a {
        InstAction::CreateDirAll(p) => assert_eq!(p, dir),
        _ => panic!("expected the directory creation"),
    }
    let a = m.step(InstEvent::Dir(None));
    match &a {
        InstAction::RunDownload { url, outfile } => {
            assert_eq!(
                url,
                "https://github.com/ggerganov/whisper.cpp/releases/download/v1.5.4/whisper-bin-x64.zip"
            );
            assert_eq!(outfile, &format!("{dir}/whisper.zip"));
        },
        _ => panic!("expected the archive download"),
    }
    let a = m.step(proc_ok());
    match &a {
        InstAction::RunExtract { archive, dest } => {
            assert_eq!(archive, &format!("{dir}/whisper.zip"));
            assert_eq!(dest, dir);
        },
        _ => panic!("expected the extraction"),
    }
    // Of the two base models the restricted one is present; the multilingual
    // one is fetched, its failure is logged over.
    let a = m.step(proc_ok());
    match &a {
        InstAction::Stat(p) => assert_eq!(p, &format!("{dir}/ggml-base.en.bin")),
        _ => panic!("expected the first model stat"),
    }
    let a = m.step(InstEvent::Exists(true));
    match &a {
        InstAction::Stat(p) => assert_eq!(p, &format!("{dir}/ggml-base.bin")),
        _ => panic!("expected the second model stat"),
    }
    let a = m.step(InstEvent::Exists(false));
    match &a {
        InstAction::RunDownload { url, outfile } => {
            assert_eq!(
                url,
                "https://huggingface.co/ggerganov/whisper.cpp/resolve/main/ggml-base.bin"
            );
            assert_eq!(outfile, &format!("{dir}/ggml-base.bin"));
        },
        _ => panic!("expected the model download"),
    }
    let a = m.step(InstEvent::Proc {
        spawned: true,
        spawn_error: String::new(),
        exit_ok: false,
    });
    // The binary scan follows.
    match &a {
        InstAction::Stat(p) => assert_eq!(p, &format!("{dir}/whisper.exe")),
        _ => panic!("expected the first binary stat"),
    }
    let a = m.step(InstEvent::Exists(false));
    match &a {
        InstAction::Stat(p) => assert_eq!(p, &format!("{dir}/main.exe")),
        _ => panic!("expected the second binary stat"),
    }
    let a = m.step(InstEvent::Exists(true));
    match a {
        InstAction::Done(Ok(r)) => {
            assert!(r.success);
            assert_eq!(r.message, format!("Whisper.cpp installed to {dir}"));
            assert_eq!(r.path.as_deref(), Some(format!("{dir}/main.exe").as_str()));
        },
        _ => panic!("expected the success"),
    }
}

#[test]
fn install_download_spawn_failure_is_an_error() {
    let (mut m, _) = InstallFlow::install_whisper(Platform::Windows, Some("/home/u"));
    let _ = m.step(InstEvent::Exists(true));
    let a = m.step(InstEvent::Proc {
        spawned: false,
        spawn_error: "powershell missing".to_string(),
        exit_ok: false,
    });
    match a {
        InstAction::Done(Err(e)) => assert_eq!(e, "Failed to download: powershell missing"),
        _ => panic!("expected the error"),
    }
}

#[test]
fn install_archive_failure_is_reported_not_raised() {
    let (mut m, _) = InstallFlow::install_whisper(Platform::Windows, Some("/home/u"));
    let _ = m.step(InstEvent::Exists(true));
    let a = m.step(InstEvent::Proc {
        spawned: true,
        spawn_error: String::new(),
        exit_ok: false,
    });
    match a {
        InstAction::Done(Ok(r)) => {
            assert!(!r.success);
            assert_eq!(
                r.message,
                "Failed to download whisper.cpp. Please install manually."
            );
        },
        _ => panic!("expected the reported failure"),
    }
}

#[test]
fn ollama_endpoints() {
    assert_eq!(ollama_base_url(None), "http://localhost:11434");
    assert_eq!(ollama_base_url(Some("http://host:1".to_string())), "http://host:1");
    assert_eq!(ollama_version_endpoint("http://host:1"), "http://host:1/api/version");
    assert_eq!(ollama_tags_endpoint("http://host:1"), "http://host:1/api/tags");
}

#[test]
fn ollama_availability_classification() {
    let r = check_ollama_available(
        "http://host:1".to_string(),
        true,
        true,
        Some("0.1.2".to_string()),
    );
    assert!(r.available);
    assert_eq!(r.version.as_deref(), Some("0.1.2"));
    assert_eq!(r.base_url, "http://host:1");

    let r = check_ollama_available("http://host:1".to_string(), true, true, None);
    assert!(r.available);
    assert_eq!(r.version, None);

    let r = check_ollama_available(
        "http://host:1".to_string(),
        true,
        false,
        Some("0.1.2".to_string()),
    );
    assert!(!r.available);
    assert_eq!(r.version, None);

    let r = check_ollama_available("http://host:1".to_string(), false, false, None);
    assert!(!r.available);
}

#[test]
fn ollama_model_fields_take_defaults() {
    let m = ollama_model_from_fields(
        Some("llama3".to_string()),
        None,
        None,
        None,
        None,
    )
    .unwrap();
    assert_eq!(m.name, "llama3");
    assert_eq!(m.model, "llama3");
    assert_eq!(m.size, 0);
    assert_eq!(m.digest, "");
    assert_eq!(m.modified_at, "");

    let m = ollama_model_from_fields(
        Some("llama3".to_string()),
        Some("llama3:8b".to_string()),
        Some(42),
        Some("abc".to_string()),
        Some("now".to_string()),
    )
    .unwrap();
    assert_eq!(m.model, "llama3:8b");
    assert_eq!(m.size, 42);
    assert_eq!(m.digest, "abc");
    assert_eq!(m.modified_at, "now");

    assert!(ollama_model_from_fields(None, Some("x".to_string()), None, None, None).is_none());
}

#[test]
fn ollama_listing_results() {
    let ok = ollama_models_ok(Vec::new());
    assert!(ok.success);
    assert!(ok.models.is_empty());
    assert_eq!(ok.error, None);

    let e = ollama_models_failure(OllamaFailure::Parse, "bad json");
    assert!(!e.success);
    assert_eq!(e.error.as_deref(), Some("Failed to parse response: bad json"));
    let e = ollama_models_failure(OllamaFailure::Connect, "refused");
    assert_eq!(e.error.as_deref(), Some("Failed to connect to OLLAMA: refused"));
    let e = ollama_models_failure(OllamaFailure::Status, "500");
    assert_eq!(e.error.as_deref(), Some("OLLAMA responded with status: 500"));
    let e = ollama_models_failure(OllamaFailure::Read, "eof");
    assert_eq!(e.error.as_deref(), Some("Failed to read response: eof"));
    let e = ollama_models_failure(OllamaFailure::ClientBuild, "tls");
    assert_eq!(e.error.as_deref(), Some("Failed to create HTTP client: tls"));
}
