//! Tool probing: classifying whether a candidate path or command is a
//! working instance of the engine, and the step-by-step availability check
//! over the candidates, most specific first: the saved path, the
//! installation directory, then the bare commands on the search path.
//!
//! Probing spawns short-lived child processes; that side effect is the
//! caller's, who bounds each run with a time limit. The caller performs each
//! requested stat or probe and hands the outcome back as an event; every
//! decision in between is made here.

use vstd::prelude::*;
use crate::paths::{engine_binary_candidates, engine_binary_names, install_dir_spec, views_eq};
use crate::text::{contains_seq, str_contains};

verus! {

/// Captured output of one probe run of a candidate with a help flag.
pub struct ProbeOutput {
    /// The process exited with status zero.
    pub exit_ok: bool,
    pub stdout: String,
    pub stderr: String,
}

/// How one probe run ended. A probe that cannot be spawned or does not
/// finish within the caller's time bound never classifies as available.
pub enum ProbeRun {
    /// The probe ran to completion with this output.
    Completed(ProbeOutput),
    /// The probe process could not be spawned.
    SpawnFailed,
    /// The probe exceeded the caller's time bound and was terminated.
    TimedOut,
}

/// A recognizable marker token of the tool family occurs in the combined
/// output: help and version conventions differ between engine builds, so
/// either the tool's name or a usage banner counts.
pub open spec fn probe_marker_present(stdout: Seq<char>, stderr: Seq<char>) -> bool {
    ||| contains_seq(stdout, "whisper"@)
    ||| contains_seq(stderr, "whisper"@)
    ||| contains_seq(stdout, "usage"@)
    ||| contains_seq(stderr, "usage"@)
}

/// A probed candidate that ran to completion is a working engine: it exited
/// successfully, or its output carries a recognizable marker token.
pub open spec fn probe_available_spec(exit_ok: bool, stdout: Seq<char>, stderr: Seq<char>) -> bool {
    exit_ok || probe_marker_present(stdout, stderr)
}

/// A probe run classifies as available only when it completed and its
/// outcome does; a spawn failure or a timeout never does.
pub open spec fn probe_run_available(run: ProbeRun) -> bool {
    run matches ProbeRun::Completed(o) && probe_available_spec(o.exit_ok, o.stdout@, o.stderr@)
}

/// Classifies one completed probe run.
pub fn classify_probe(out: &ProbeOutput) -> (b: bool)
    ensures
        b == probe_available_spec(out.exit_ok, out.stdout@, out.stderr@),
{
    if out.exit_ok {
        return true;
    }
    str_contains(out.stdout.as_str(), "whisper") || str_contains(out.stderr.as_str(), "whisper")
        || str_contains(out.stdout.as_str(), "usage") || str_contains(
        out.stderr.as_str(),
        "usage",
    )
}

/// Probe correctness: a candidate that exits successfully is available
/// regardless of its output; one that exits non-zero with no recognizable
/// marker token in either stream is unavailable; and one that did not run to
/// completion — a spawn failure or a timeout — is unavailable.
pub proof fn lemma_probe_classification(run: ProbeRun)
    ensures
        run matches ProbeRun::Completed(o) ==> (o.exit_ok ==> probe_run_available(run)),
        run matches ProbeRun::Completed(o) ==> (!o.exit_ok && !probe_marker_present(
            o.stdout@,
            o.stderr@,
        ) ==> !probe_run_available(run)),
        !(run is Completed) ==> !probe_run_available(run),
{
}

/// Outcome of an engine availability check.
pub struct WhisperCheckResult {
    pub available: bool,
    /// The usable path or command, when available.
    pub path: Option<String>,
}

/// Classifies a user-selected engine path from the outcomes of the stat and
/// of the probe run.
pub fn verify_whisper_path(path: &str, exists: bool, probe: &ProbeRun) -> (r: WhisperCheckResult)
    ensures
        !exists ==> !r.available && r.path is None,
        exists && probe_run_available(*probe) ==> r.available && (r.path matches Some(p) && p@
            == path@),
        exists && !probe_run_available(*probe) ==> !r.available && r.path is None,
{
    if !exists {
        return WhisperCheckResult { available: false, path: None };
    }
    match probe {
        ProbeRun::Completed(out) => {
            if classify_probe(out) {
                WhisperCheckResult { available: true, path: Some(String::from_str(path)) }
            } else {
                WhisperCheckResult { available: false, path: None }
            }
        },
        _ => WhisperCheckResult { available: false, path: None },
    }
}

/// Where the availability check stands: which candidate is being examined.
/// The order is most specific first: the saved path, the installation
/// directory, then the search-path commands.
pub enum AvailState {
    /// Stat the saved path.
    CheckSaved,
    /// Probe the saved path; availability goes by exit status alone.
    ProbeSaved,
    /// Stat installation-directory candidate `i`.
    CheckInstall { i: usize },
    /// Probe the `whisper` command on the search path by exit status.
    ProbeWhisper,
    /// Probe the `main` command; availability goes by the tool name in its
    /// standard output, since that build's help exits non-zero.
    ProbeMain,
    /// The check is decided.
    Finished { result: WhisperCheckResult },
}

/// The availability check as a stepwise machine: it requests one stat or
/// probe at a time and the caller reports the outcome.
pub struct AvailabilityCheck {
    pub saved_path: Option<String>,
    /// Installation-directory binary candidates; empty when no home
    /// directory is known.
    pub install_candidates: Vec<String>,
    pub state: AvailState,
}

/// What the machine asks the caller to do next.
pub enum AvailAction {
    /// Report whether this path exists.
    Stat(String),
    /// Run this candidate with a help flag, under a time bound, and report
    /// the outcome.
    RunHelp(String),
    /// The check is decided.
    Done(WhisperCheckResult),
}

/// The outcome the caller reports for the last requested action.
pub enum ProbeEvent {
    /// The stat's result.
    Stat(bool),
    /// The probe's outcome.
    Help(ProbeRun),
}

/// The machine's data is internally consistent.
pub open spec fn av_wf(c: AvailabilityCheck) -> bool {
    &&& (c.state is CheckSaved || c.state is ProbeSaved) ==> c.saved_path is Some
    &&& (c.state matches AvailState::CheckInstall { i } ==> i < c.install_candidates@.len())
}

/// The event kind answers the pending request.
pub open spec fn av_event_fits(c: AvailabilityCheck, ev: ProbeEvent) -> bool {
    match c.state {
        AvailState::CheckSaved => ev is Stat,
        AvailState::ProbeSaved => ev is Help,
        AvailState::CheckInstall { .. } => ev is Stat,
        AvailState::ProbeWhisper => ev is Help,
        AvailState::ProbeMain => ev is Help,
        AvailState::Finished { .. } => false,
    }
}

/// An available outcome naming `path`.
pub open spec fn av_found(r: WhisperCheckResult, path: Seq<char>) -> bool {
    r.available && (r.path matches Some(p) && p@ == path)
}

/// An unavailable outcome naming nothing.
pub open spec fn av_missing(r: WhisperCheckResult) -> bool {
    !r.available && r.path is None
}

/// The action a state requests.
pub open spec fn av_request(c: AvailabilityCheck, a: AvailAction) -> bool {
    match c.state {
        AvailState::CheckSaved => a matches AvailAction::Stat(p) && c.saved_path matches Some(s)
            && p@ == s@,
        AvailState::ProbeSaved => a matches AvailAction::RunHelp(p) && c.saved_path matches Some(s)
            && p@ == s@,
        AvailState::CheckInstall { i } => a matches AvailAction::Stat(p) && i
            < c.install_candidates@.len() && p@ == c.install_candidates@[i as int]@,
        AvailState::ProbeWhisper => a matches AvailAction::RunHelp(p) && p@ == "whisper"@,
        AvailState::ProbeMain => a matches AvailAction::RunHelp(p) && p@ == "main"@,
        AvailState::Finished { result } => a matches AvailAction::Done(r) && r.available
            == result.available && (match result.path {
            Some(q) => r.path matches Some(p) && p@ == q@,
            None => r.path is None,
        }),
    }
}

/// After the saved path is out, the installation directory is scanned; when
/// none is known, the search-path probes begin at once.
pub open spec fn av_search_entry(s: AvailabilityCheck, t: AvailabilityCheck) -> bool {
    if s.install_candidates@.len() > 0 {
        t.state matches AvailState::CheckInstall { i } && i == 0
    } else {
        t.state is ProbeWhisper
    }
}

/// How one reported outcome advances the check: the constant data is kept,
/// and the state moves to the next candidate in the fixed most-specific-first
/// order, or to a decision.
pub open spec fn av_step_spec(
    s: AvailabilityCheck,
    ev: ProbeEvent,
    t: AvailabilityCheck,
) -> bool {
    &&& t.saved_path == s.saved_path
    &&& t.install_candidates == s.install_candidates
    &&& match s.state {
        AvailState::CheckSaved => match ev {
            ProbeEvent::Stat(true) => t.state is ProbeSaved,
            ProbeEvent::Stat(false) => av_search_entry(s, t),
            _ => false,
        },
        AvailState::ProbeSaved => match ev {
            ProbeEvent::Help(run) => if probe_exit_hit(run) {
                t.state matches AvailState::Finished { result } && (s.saved_path matches Some(p)
                    && av_found(result, p@))
            } else {
                av_search_entry(s, t)
            },
            _ => false,
        },
        AvailState::CheckInstall { i } => match ev {
            ProbeEvent::Stat(true) => t.state matches AvailState::Finished { result } && i
                < s.install_candidates@.len() && av_found(
                result,
                s.install_candidates@[i as int]@,
            ),
            ProbeEvent::Stat(false) => if i + 1 < s.install_candidates@.len() {
                t.state matches AvailState::CheckInstall { i: j } && j == i + 1
            } else {
                t.state is ProbeWhisper
            },
            _ => false,
        },
        AvailState::ProbeWhisper => match ev {
            ProbeEvent::Help(run) => if probe_exit_hit(run) {
                t.state matches AvailState::Finished { result } && av_found(result, "whisper"@)
            } else {
                t.state is ProbeMain
            },
            _ => false,
        },
        AvailState::ProbeMain => match ev {
            ProbeEvent::Help(run) => if probe_main_hit(run) {
                t.state matches AvailState::Finished { result } && av_found(result, "main"@)
            } else {
                t.state matches AvailState::Finished { result } && av_missing(result)
            },
            _ => false,
        },
        AvailState::Finished { .. } => false,
    }
}

/// The saved-path and `whisper` probes go by a clean exit alone.
pub open spec fn probe_exit_hit(run: ProbeRun) -> bool {
    run matches ProbeRun::Completed(o) && o.exit_ok
}

/// The `main` probe goes by the tool's name in its standard output.
pub open spec fn probe_main_hit(run: ProbeRun) -> bool {
    run matches ProbeRun::Completed(o) && contains_seq(o.stdout@, "whisper"@)
}

impl AvailabilityCheck {
    /// Begins an availability check. The saved path, when given, is examined
    /// first; `home`, when known, contributes the installation-directory
    /// candidates, which are examined before the search-path commands.
    pub fn check_whisper_available(saved_path: Option<String>, home: Option<String>) -> (r: (
        AvailabilityCheck,
        AvailAction,
    ))
        ensures
            av_wf(r.0),
            av_request(r.0, r.1),
            match saved_path {
                Some(p) => r.0.state is CheckSaved && (r.0.saved_path matches Some(q) && q@ == p@),
                None => av_search_entry(r.0, r.0),
            },
            match home {
                Some(h) => views_eq(
                    r.0.install_candidates@,
                    Seq::new(
                        engine_binary_names().len(),
                        |i: int|
                            crate::paths::join_path_spec(
                                install_dir_spec(h@),
                                engine_binary_names()[i],
                            ),
                    ),
                ),
                None => r.0.install_candidates@.len() == 0,
            },
    {
        let install_candidates = match home {
            Some(h) => engine_binary_candidates(h.as_str()),
            None => Vec::new(),
        };
        match saved_path {
            Some(p) => {
                let action = AvailAction::Stat(p.clone());
                let c = AvailabilityCheck {
                    saved_path: Some(p),
                    install_candidates,
                    state: AvailState::CheckSaved,
                };
                (c, action)
            },
            None => {
                if install_candidates.len() > 0 {
                    let first = install_candidates[0].clone();
                    let c = AvailabilityCheck {
                        saved_path: None,
                        install_candidates,
                        state: AvailState::CheckInstall { i: 0 },
                    };
                    (c, AvailAction::Stat(first))
                } else {
                    let c = AvailabilityCheck {
                        saved_path: None,
                        install_candidates,
                        state: AvailState::ProbeWhisper,
                    };
                    (c, AvailAction::RunHelp(String::from_str("whisper")))
                }
            },
        }
    }

    /// Advances the check by one reported outcome and returns the next
    /// request, or the decision.
    pub fn step(self, ev: ProbeEvent) -> (r: (AvailabilityCheck, AvailAction))
        requires
            av_wf(self),
            av_event_fits(self, ev),
        ensures
            av_wf(r.0),
            av_step_spec(self, ev, r.0),
            av_request(r.0, r.1),
    {
        let AvailabilityCheck { saved_path, install_candidates, state } = self;
        match state {
            AvailState::CheckSaved => {
                match ev {
                    ProbeEvent::Stat(true) => {
                        let p = clone_some(&saved_path);
                        let c = AvailabilityCheck {
                            saved_path,
                            install_candidates,
                            state: AvailState::ProbeSaved,
                        };
                        (c, AvailAction::RunHelp(p))
                    },
                    _ => enter_search(saved_path, install_candidates),
                }
            },
            AvailState::ProbeSaved => {
                let ok = match &ev {
                    ProbeEvent::Help(ProbeRun::Completed(o)) => o.exit_ok,
                    _ => false,
                };
                if ok {
                    let p = clone_some(&saved_path);
                    let result = WhisperCheckResult { available: true, path: Some(p) };
                    finish(saved_path, install_candidates, result)
                } else {
                    enter_search(saved_path, install_candidates)
                }
            },
            AvailState::CheckInstall { i } => {
                let n = install_candidates.len();
                assert(i < n);
                let hit = match ev {
                    ProbeEvent::Stat(b) => b,
                    _ => false,
                };
                if hit {
                    let p = install_candidates[i].clone();
                    let result = WhisperCheckResult { available: true, path: Some(p) };
                    finish(saved_path, install_candidates, result)
                } else if i + 1 < n {
                    let next = install_candidates[i + 1].clone();
                    let c = AvailabilityCheck {
                        saved_path,
                        install_candidates,
                        state: AvailState::CheckInstall { i: i + 1 },
                    };
                    (c, AvailAction::Stat(next))
                } else {
                    let c = AvailabilityCheck {
                        saved_path,
                        install_candidates,
                        state: AvailState::ProbeWhisper,
                    };
                    (c, AvailAction::RunHelp(String::from_str("whisper")))
                }
            },
            AvailState::ProbeWhisper => {
                let ok = match &ev {
                    ProbeEvent::Help(ProbeRun::Completed(o)) => o.exit_ok,
                    _ => false,
                };
                if ok {
                    let result = WhisperCheckResult {
                        available: true,
                        path: Some(String::from_str("whisper")),
                    };
                    finish(saved_path, install_candidates, result)
                } else {
                    let c = AvailabilityCheck {
                        saved_path,
                        install_candidates,
                        state: AvailState::ProbeMain,
                    };
                    (c, AvailAction::RunHelp(String::from_str("main")))
                }
            },
            AvailState::ProbeMain => {
                let ok = match &ev {
                    ProbeEvent::Help(ProbeRun::Completed(o)) => str_contains(
                        o.stdout.as_str(),
                        "whisper",
                    ),
                    _ => false,
                };
                if ok {
                    let result = WhisperCheckResult {
                        available: true,
                        path: Some(String::from_str("main")),
                    };
                    finish(saved_path, install_candidates, result)
                } else {
                    let result = WhisperCheckResult { available: false, path: None };
                    finish(saved_path, install_candidates, result)
                }
            },
            AvailState::Finished { .. } => vstd::pervasive::unreached(),
        }
    }
}

fn clone_some(p: &Option<String>) -> (r: String)
    requires
        p is Some,
    ensures
        p matches Some(q) && r@ == q@,
{
    match p {
        Some(q) => q.clone(),
        None => String::new(),
    }
}

fn enter_search(saved_path: Option<String>, install_candidates: Vec<String>) -> (r: (
    AvailabilityCheck,
    AvailAction,
))
    ensures
        r.0.saved_path == saved_path,
        r.0.install_candidates == install_candidates,
        av_wf(r.0),
        av_search_entry(r.0, r.0),
        av_request(r.0, r.1),
{
    if install_candidates.len() > 0 {
        let first = install_candidates[0].clone();
        let c = AvailabilityCheck {
            saved_path,
            install_candidates,
            state: AvailState::CheckInstall { i: 0 },
        };
        (c, AvailAction::Stat(first))
    } else {
        let c = AvailabilityCheck {
            saved_path,
            install_candidates,
            state: AvailState::ProbeWhisper,
        };
        (c, AvailAction::RunHelp(String::from_str("whisper")))
    }
}

fn finish(
    saved_path: Option<String>,
    install_candidates: Vec<String>,
    result: WhisperCheckResult,
) -> (r: (AvailabilityCheck, AvailAction))
    ensures
        r.0.saved_path == saved_path,
        r.0.install_candidates == install_candidates,
        r.0.state matches AvailState::Finished { result: q } && q == result,
        av_request(r.0, r.1),
        av_wf(r.0),
{
    let announced = WhisperCheckResult {
        available: result.available,
        path: match &result.path {
            Some(p) => Some(p.clone()),
            None => None,
        },
    };
    let c = AvailabilityCheck {
        saved_path,
        install_candidates,
        state: AvailState::Finished { result },
    };
    (c, AvailAction::Done(announced))
}

} // verus!
