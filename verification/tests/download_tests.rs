use voicekit::download::{
    percent_hundredths, AcqAction, AcqEvent, Acquisition, DownloadStatus,
};

fn ok_response(content_length: Option<u64>) -> AcqEvent {
    AcqEvent::Response {
        ok: true,
        error: String::new(),
        status_ok: true,
        status: "200 OK".to_string(),
        content_length,
    }
}

fn chunk(len: u64, now_ms: u64) -> AcqEvent {
    AcqEvent::Chunk { len, write_error: None, now_ms }
}

#[test]
fn percent_in_hundredths() {
    assert_eq!(percent_hundredths(0, 200), 0);
    assert_eq!(percent_hundredths(50, 200), 2500);
    assert_eq!(percent_hundredths(200, 200), 10000);
    // The denominator and the stream may disagree; the value then exceeds
    // one hundred percent.
    assert_eq!(percent_hundredths(300, 200), 15000);
    assert_eq!(percent_hundredths(5, 0), 0);
}

#[test]
fn unknown_model_is_refused() {
    let (_, a) = Acquisition::download_whisper_model("nope", Some("/home/u"), false);
    match a {
        AcqAction::Done(Err(e)) => assert_eq!(e, "Model 'nope' not found"),
        _ => panic!("expected a refusal"),
    }
}

#[test]
fn installed_model_decides_at_once_with_its_path() {
    let (_, a1) = Acquisition::download_whisper_model("base", Some("/home/u"), true);
    let (_, a2) = Acquisition::download_whisper_model("base", Some("/home/u"), true);
    let p1 = match a1 {
        AcqAction::Done(Ok(d)) => {
            assert!(d.success);
            assert_eq!(d.message, "Model already installed");
            d.model_path.unwrap()
        },
        _ => panic!("expected an immediate success"),
    };
    let p2 = match a2 {
        AcqAction::Done(Ok(d)) => d.model_path.unwrap(),
        _ => panic!("expected an immediate success"),
    };
    // Idempotence: both calls report the same installed path, and neither
    // asked for any network work.
    assert_eq!(p1, p2);
    assert_eq!(p1, "/home/u/.voiceintelligence/whisper/ggml-base.en.bin");
}

#[test]
fn missing_home_is_an_error() {
    let (_, a) = Acquisition::download_whisper_model("base", None, false);
    match a {
        AcqAction::Done(Err(e)) => assert_eq!(e, "Could not find home directory"),
        _ => panic!("expected an error"),
    }
}

#[test]
fn full_download_emits_monotone_progress_ending_at_hundred_percent() {
    let (c, a) = Acquisition::download_whisper_model("base-multi", Some("/home/u"), false);
    match &a {
        AcqAction::CreateDirAll(d) => assert_eq!(d, "/home/u/.voiceintelligence/whisper"),
        _ => panic!("expected the directory request"),
    }
    let mut emitted: Vec<(u64, u64, u64, DownloadStatus)> = Vec::new();
    let mut renamed = false;

    let (c, a) = c.step(AcqEvent::Dir(None));
    let c = match a {
        AcqAction::Emit(p) => {
            assert_eq!(p.model_id, "base-multi");
            assert_eq!(p.status, DownloadStatus::Starting);
            assert_eq!(p.downloaded, 0);
            assert_eq!(p.total, 142_000_000);
            emitted.push((p.downloaded, p.total, p.percent_hundredths, p.status));
            c
        },
        _ => panic!("expected the starting record"),
    };
    let (c, a) = c.step(AcqEvent::Emitted);
    match &a {
        AcqAction::HttpGet(u) => assert_eq!(
            u,
            "https://huggingface.co/ggerganov/whisper.cpp/resolve/main/ggml-base.bin"
        ),
        _ => panic!("expected the request"),
    }
    let (c, a) = c.step(ok_response(Some(200)));
    match &a {
        AcqAction::CreateFile(p) => assert_eq!(
            p,
            "/home/u/.voiceintelligence/whisper/ggml-base.bin.tmp"
        ),
        _ => panic!("expected the temporary file"),
    }
    let (c, a) = c.step(AcqEvent::File(None));
    assert!(matches!(a, AcqAction::ReadChunk));

    // A chunk before the emission interval elapses is not reported.
    let (c, a) = c.step(chunk(50, 40));
    assert!(matches!(a, AcqAction::ReadChunk));

    // The next chunk is due for a report.
    let (c, a) = c.step(chunk(50, 150));
    let c = match a {
        AcqAction::Emit(p) => {
            assert_eq!(p.status, DownloadStatus::Downloading);
            assert_eq!(p.downloaded, 100);
            assert_eq!(p.total, 200);
            assert_eq!(p.percent_hundredths, 5000);
            emitted.push((p.downloaded, p.total, p.percent_hundredths, p.status));
            c
        },
        _ => panic!("expected a downloading record"),
    };
    let (c, a) = c.step(AcqEvent::Emitted);
    assert!(matches!(a, AcqAction::ReadChunk));

    let (c, a) = c.step(chunk(100, 200));
    assert!(matches!(a, AcqAction::ReadChunk));

    let (c, a) = c.step(AcqEvent::StreamEnd);
    match &a {
        AcqAction::FlushFile(p) => assert_eq!(
            p,
            "/home/u/.voiceintelligence/whisper/ggml-base.bin.tmp"
        ),
        _ => panic!("expected the flush"),
    }
    let (c, a) = c.step(AcqEvent::Flush(None));
    match &a {
        AcqAction::RenameFile { from, to } => {
            renamed = true;
            assert_eq!(from, "/home/u/.voiceintelligence/whisper/ggml-base.bin.tmp");
            assert_eq!(to, "/home/u/.voiceintelligence/whisper/ggml-base.bin");
        },
        _ => panic!("expected the rename"),
    }
    let (c, a) = c.step(AcqEvent::Rename(None));
    let c = match a {
        AcqAction::Emit(p) => {
            assert_eq!(p.status, DownloadStatus::Completed);
            assert_eq!(p.downloaded, 200);
            assert_eq!(p.percent_hundredths, 10000);
            emitted.push((p.downloaded, p.total, p.percent_hundredths, p.status));
            c
        },
        _ => panic!("expected the completed record"),
    };
    let (_, a) = c.step(AcqEvent::Emitted);
    match a {
        AcqAction::Done(Ok(d)) => {
            assert!(d.success);
            assert_eq!(d.message, "Model 'base-multi' downloaded successfully");
            assert_eq!(
                d.model_path.as_deref(),
                Some("/home/u/.voiceintelligence/whisper/ggml-base.bin")
            );
        },
        _ => panic!("expected the success"),
    }

    assert!(renamed);
    // Progress monotonicity: the emitted byte counts never decrease, and the
    // final record reports exactly one hundred percent.
    for w in emitted.windows(2) {
        assert!(w[0].0 <= w[1].0);
    }
    assert_eq!(emitted.last().unwrap().2, 10000);
    assert_eq!(emitted.last().unwrap().3, DownloadStatus::Completed);
}

#[test]
fn interrupted_stream_never_renames_to_final_name() {
    let (c, _) = Acquisition::download_whisper_model("base", Some("/home/u"), false);
    let (c, _) = c.step(AcqEvent::Dir(None));
    let (c, _) = c.step(AcqEvent::Emitted);
    let (c, _) = c.step(ok_response(None));
    let (c, _) = c.step(AcqEvent::File(None));
    let (c, _) = c.step(chunk(1000, 0));
    let (_, a) = c.step(AcqEvent::StreamError("connection reset".to_string()));
    // Atomicity: the failure is reported and the final name was never the
    // target of any request; only the temporary file was written.
    match a {
        AcqAction::Done(Err(e)) => assert_eq!(e, "Download error: connection reset"),
        _ => panic!("expected the failure"),
    }
}

#[test]
fn http_failure_reports_status() {
    let (c, _) = Acquisition::download_whisper_model("base", Some("/home/u"), false);
    let (c, _) = c.step(AcqEvent::Dir(None));
    let (c, _) = c.step(AcqEvent::Emitted);
    let (_, a) = c.step(AcqEvent::Response {
        ok: true,
        error: String::new(),
        status_ok: false,
        status: "404 Not Found".to_string(),
        content_length: None,
    });
    match a {
        AcqAction::Done(Err(e)) => assert_eq!(e, "Download failed with status: 404 Not Found"),
        _ => panic!("expected the failure"),
    }
}

#[test]
fn write_failure_is_reported() {
    let (c, _) = Acquisition::download_whisper_model("base", Some("/home/u"), false);
    let (c, _) = c.step(AcqEvent::Dir(None));
    let (c, _) = c.step(AcqEvent::Emitted);
    let (c, _) = c.step(ok_response(None));
    let (c, _) = c.step(AcqEvent::File(None));
    let (_, a) = c.step(AcqEvent::Chunk {
        len: 10,
        write_error: Some("disk full".to_string()),
        now_ms: 0,
    });
    match a {
        AcqAction::Done(Err(e)) => assert_eq!(e, "Failed to write to file: disk full"),
        _ => panic!("expected the failure"),
    }
}

#[test]
fn directory_failure_is_reported() {
    let (c, _) = Acquisition::download_whisper_model("tiny", Some("/home/u"), false);
    let (_, a) = c.step(AcqEvent::Dir(Some("permission denied".to_string())));
    match a {
        AcqAction::Done(Err(e)) => assert_eq!(e, "Failed to create directory: permission denied"),
        _ => panic!("expected the failure"),
    }
}

#[test]
fn cancellation_midstream_removes_the_temporary_file() {
    let (c, _) = Acquisition::download_whisper_model("base", Some("/home/u"), false);
    let (c, _) = c.step(AcqEvent::Dir(None));
    let (c, _) = c.step(AcqEvent::Emitted);
    let (c, _) = c.step(ok_response(Some(200)));
    let (c, _) = c.step(AcqEvent::File(None));
    let (c, _) = c.step(chunk(50, 0));
    // The caller raises its cancellation signal mid-stream: the partial
    // temporary file is removed, then the distinct cancelled outcome comes.
    let (c, a) = c.step(AcqEvent::Cancel);
    match &a {
        AcqAction::DeleteFile(p) => assert_eq!(
            p,
            "/home/u/.voiceintelligence/whisper/ggml-base.en.bin.tmp"
        ),
        _ => panic!("expected the temporary file removal"),
    }
    let (_, a) = c.step(AcqEvent::Removed);
    match a {
        AcqAction::Done(Err(e)) => assert_eq!(e, "Download cancelled"),
        _ => panic!("expected the cancelled outcome"),
    }
}

#[test]
fn cancellation_before_any_file_work_decides_at_once() {
    let (c, _) = Acquisition::download_whisper_model("base", Some("/home/u"), false);
    let (c, _) = c.step(AcqEvent::Dir(None));
    // Cancelled while the starting record awaits its observer: no temporary
    // file exists yet, so nothing is removed.
    let (_, a) = c.step(AcqEvent::Cancel);
    match a {
        AcqAction::Done(Err(e)) => assert_eq!(e, "Download cancelled"),
        _ => panic!("expected the cancelled outcome"),
    }
}

#[test]
fn content_length_absent_falls_back_to_descriptor_size() {
    let (c, _) = Acquisition::download_whisper_model("tiny", Some("/home/u"), false);
    let (c, _) = c.step(AcqEvent::Dir(None));
    let (c, _) = c.step(AcqEvent::Emitted);
    let (c, _) = c.step(ok_response(None));
    let (c, _) = c.step(AcqEvent::File(None));
    let (_, a) = c.step(chunk(75_000_000, 500));
    match a {
        AcqAction::Emit(p) => {
            assert_eq!(p.total, 75_000_000);
            assert_eq!(p.percent_hundredths, 10000);
        },
        _ => panic!("expected a downloading record"),
    }
}
