use voicekit::probe::{
    classify_probe, verify_whisper_path, AvailAction, AvailabilityCheck, ProbeEvent, ProbeOutput,
    ProbeRun,
};

fn output(exit_ok: bool, stdout: &str, stderr: &str) -> ProbeOutput {
    ProbeOutput { exit_ok, stdout: stdout.to_string(), stderr: stderr.to_string() }
}

fn completed(exit_ok: bool, stdout: &str, stderr: &str) -> ProbeRun {
    ProbeRun::Completed(output(exit_ok, stdout, stderr))
}

#[test]
fn zero_exit_is_available_regardless_of_output() {
    assert!(classify_probe(&output(true, "", "")));
    assert!(classify_probe(&output(true, "garbage", "noise")));
}

#[test]
fn nonzero_exit_without_marker_is_unavailable() {
    assert!(!classify_probe(&output(false, "no marker here", "nor here")));
}

#[test]
fn nonzero_exit_with_marker_is_available() {
    assert!(classify_probe(&output(false, "whisper.cpp help", "")));
    assert!(classify_probe(&output(false, "", "usage: main -m model")));
}

#[test]
fn verify_path_classification() {
    let r = verify_whisper_path("/x/whisper", false, &completed(true, "", ""));
    assert!(!r.available);
    assert_eq!(r.path, None);

    let r = verify_whisper_path("/x/whisper", true, &ProbeRun::SpawnFailed);
    assert!(!r.available);

    let r = verify_whisper_path("/x/whisper", true, &completed(true, "", ""));
    assert!(r.available);
    assert_eq!(r.path.as_deref(), Some("/x/whisper"));

    let r = verify_whisper_path("/x/whisper", true, &completed(false, "", ""));
    assert!(!r.available);
    assert_eq!(r.path, None);
}

#[test]
fn timed_out_probe_is_unavailable() {
    let r = verify_whisper_path("/x/whisper", true, &ProbeRun::TimedOut);
    assert!(!r.available);
    assert_eq!(r.path, None);
}

#[test]
fn availability_check_saved_path_wins() {
    let (c, a) = AvailabilityCheck::check_whisper_available(
        Some("/x/whisper".to_string()),
        Some("/home/u".to_string()),
    );
    match &a {
        AvailAction::Stat(p) => assert_eq!(p, "/x/whisper"),
        _ => panic!("expected a stat of the saved path"),
    }
    let (c, a) = c.step(ProbeEvent::Stat(true));
    match &a {
        AvailAction::RunHelp(p) => assert_eq!(p, "/x/whisper"),
        _ => panic!("expected a probe of the saved path"),
    }
    let (_, a) = c.step(ProbeEvent::Help(completed(true, "", "")));
    match a {
        AvailAction::Done(r) => {
            assert!(r.available);
            assert_eq!(r.path.as_deref(), Some("/x/whisper"));
        },
        _ => panic!("expected a decision"),
    }
}

#[test]
fn availability_check_prefers_installed_binary_over_search_path() {
    // Most specific first: with a home known, the installation directory is
    // examined before any bare command is probed, so an installed binary is
    // reported without a single probe of the search path.
    let (c, a) = AvailabilityCheck::check_whisper_available(None, Some("/home/u".to_string()));
    match &a {
        AvailAction::Stat(p) => assert_eq!(p, "/home/u/.voiceintelligence/whisper/whisper.exe"),
        _ => panic!("expected the first installation candidate"),
    }
    let (_, a) = c.step(ProbeEvent::Stat(true));
    match a {
        AvailAction::Done(r) => {
            assert!(r.available);
            assert_eq!(
                r.path.as_deref(),
                Some("/home/u/.voiceintelligence/whisper/whisper.exe")
            );
        },
        _ => panic!("expected a decision"),
    }
}

#[test]
fn availability_check_main_by_output_marker() {
    let (c, a) = AvailabilityCheck::check_whisper_available(None, None);
    match &a {
        AvailAction::RunHelp(p) => assert_eq!(p, "whisper"),
        _ => panic!("expected the whisper probe first"),
    }
    let (c, a) = c.step(ProbeEvent::Help(completed(false, "", "")));
    match &a {
        AvailAction::RunHelp(p) => assert_eq!(p, "main"),
        _ => panic!("expected the main probe next"),
    }
    let (_, a) = c.step(ProbeEvent::Help(completed(false, "whisper.cpp usage", "")));
    match a {
        AvailAction::Done(r) => {
            assert!(r.available);
            assert_eq!(r.path.as_deref(), Some("main"));
        },
        _ => panic!("expected a decision"),
    }
}

#[test]
fn availability_check_walks_install_dir_then_path_then_gives_up() {
    let (c, a) = AvailabilityCheck::check_whisper_available(None, Some("/home/u".to_string()));
    let expected = [
        "/home/u/.voiceintelligence/whisper/whisper.exe",
        "/home/u/.voiceintelligence/whisper/main.exe",
        "/home/u/.voiceintelligence/whisper/whisper",
        "/home/u/.voiceintelligence/whisper/main",
    ];
    match &a {
        AvailAction::Stat(p) => assert_eq!(p, expected[0]),
        _ => panic!("expected the first installation candidate"),
    }
    let mut cur = c;
    for want in &expected[1..] {
        let (c2, a) = cur.step(ProbeEvent::Stat(false));
        match &a {
            AvailAction::Stat(p) => assert_eq!(p, want),
            _ => panic!("expected the next installation candidate"),
        }
        cur = c2;
    }
    // Only after the whole installation directory misses are the bare
    // commands probed.
    let (c, a) = cur.step(ProbeEvent::Stat(false));
    match &a {
        AvailAction::RunHelp(p) => assert_eq!(p, "whisper"),
        _ => panic!("expected the whisper probe"),
    }
    let (c, a) = c.step(ProbeEvent::Help(ProbeRun::SpawnFailed));
    match &a {
        AvailAction::RunHelp(p) => assert_eq!(p, "main"),
        _ => panic!("expected the main probe"),
    }
    let (_, a) = c.step(ProbeEvent::Help(ProbeRun::TimedOut));
    match a {
        AvailAction::Done(r) => {
            assert!(!r.available);
            assert_eq!(r.path, None);
        },
        _ => panic!("expected a decision"),
    }
}

#[test]
fn availability_check_timed_out_saved_probe_falls_through() {
    let (c, _) = AvailabilityCheck::check_whisper_available(
        Some("/x/whisper".to_string()),
        Some("/home/u".to_string()),
    );
    let (c, _) = c.step(ProbeEvent::Stat(true));
    // The saved path hangs; the check moves on to the installation
    // directory.
    let (c, a) = c.step(ProbeEvent::Help(ProbeRun::TimedOut));
    match &a {
        AvailAction::Stat(p) => assert_eq!(p, "/home/u/.voiceintelligence/whisper/whisper.exe"),
        _ => panic!("expected the first installation candidate"),
    }
    let (c, _) = c.step(ProbeEvent::Stat(false));
    let (_, a) = c.step(ProbeEvent::Stat(true));
    match a {
        AvailAction::Done(r) => {
            assert!(r.available);
            assert_eq!(
                r.path.as_deref(),
                Some("/home/u/.voiceintelligence/whisper/main.exe")
            );
        },
        _ => panic!("expected a decision"),
    }
}
