//! Transcription orchestration: a linear machine that checks the audio file,
//! resolves a usable engine binary, resolves the model file with fallback,
//! invokes the engine, and parses the result from standard output or a side
//! file. The caller performs each requested stat, probe, run, read or delete
//! and reports the outcome as an event; every decision is made here.

use vstd::prelude::*;
use crate::paths::{
    engine_binary_candidates, engine_binary_names, install_dir, install_dir_spec, join_path_spec,
    model_fallback_paths, model_fallback_paths_spec, model_search_paths, model_search_paths_spec,
    path_command_names, path_commands, views_eq,
};
use crate::probe::{probe_exit_hit, ProbeRun};
use crate::selector::{
    chosen_file_name, chosen_file_of, english_file_name, english_file_of, model_missing_message,
    model_missing_msg_spec, uses_multilingual,
};
use crate::text::{
    i32_dec_spec, i32_to_string, join, join_spec, str_eq, trim, trim_spec, views_of,
};

verus! {

/// The transcription produced for one request. The engine does not report
/// timing, so the duration is always zero.
pub struct TranscriptionResult {
    pub text: String,
    pub language: String,
    /// Always zero: real audio duration is not extracted.
    pub duration_ms: u64,
}

/// The request: what to transcribe and with what.
pub struct TrConfig {
    pub audio_path: String,
    pub language: String,
    pub model: String,
    /// The caller-supplied engine path, tried first.
    pub whisper_path: Option<String>,
    /// The home directory, when known.
    pub home: Option<String>,
    /// Installation-directory engine candidates; empty when no home is
    /// known.
    pub install_candidates: Vec<String>,
    /// Bare command names probed through the search path.
    pub commands: Vec<String>,
}

/// Where the orchestration stands: what outcome it awaits.
#[derive(Clone, Copy)]
pub enum TrState {
    /// Stat the audio file.
    CheckAudio,
    /// Stat the caller-supplied engine path.
    CheckOverride,
    /// Stat installation-directory engine candidate `i`.
    ScanInstall { i: usize },
    /// Probe search-path command `i` by exit status.
    ProbePath { i: usize },
    /// Stat the installation directory, which decides whether its `models`
    /// subdirectory joins the search.
    CheckModelsDir,
    /// Stat model candidate location `i`.
    CheckModel { i: usize },
    /// Stat fallback candidate location `i` of the language-restricted file.
    CheckFallback { i: usize },
    /// Run the engine.
    Invoke,
    /// Stat the side file named by appending to the audio path.
    CheckSideA,
    /// Read that side file.
    ReadSideA,
    /// Delete that side file.
    DeleteSideA,
    /// Stat the side file named by replacing the audio path's extension.
    CheckSideB,
    /// Read that side file.
    ReadSideB,
    /// Delete that side file.
    DeleteSideB,
    /// The orchestration is decided; the result is held beside the state.
    Finished,
}

/// Captured outcome of the engine run.
pub struct RunOutcome {
    /// The process could be spawned.
    pub spawned: bool,
    /// The spawn error, meaningful when `spawned` is false.
    pub spawn_error: String,
    /// The process exited with status zero.
    pub exit_ok: bool,
    pub exit_code: Option<i32>,
    pub stdout: String,
    pub stderr: String,
}

/// The outcome the caller reports for the last requested action.
pub enum TrEvent {
    /// The stat's result.
    Exists(bool),
    /// A probe's outcome.
    Help(ProbeRun),
    /// The engine run's outcome.
    Run(RunOutcome),
    /// The read file's content, or `None` when it could not be read.
    FileRead(Option<String>),
    /// The delete was attempted (best effort).
    Deleted,
    /// The caller raised its cancellation signal.
    Cancel,
}

/// What the machine asks the caller to do next.
pub enum TrAction {
    /// Report whether this path exists.
    Stat(String),
    /// Run this candidate with a help flag and report the outcome.
    RunHelp(String),
    /// Run the engine with these arguments and report the outcome.
    RunEngine { program: String, args: Vec<String> },
    /// Read this file.
    ReadFile(String),
    /// Delete this file, best effort.
    DeleteFile(String),
    /// The orchestration is decided.
    Done(Result<TranscriptionResult, String>),
}

/// One transcription in progress.
pub struct Transcription {
    pub cfg: TrConfig,
    /// The caller-supplied path was given but absent, which colours the
    /// engine-not-found message.
    pub override_missing: bool,
    /// The resolved engine, meaningful from `CheckModelsDir` on.
    pub engine: String,
    /// Whether the installation directory exists, meaningful from
    /// `CheckModel` on.
    pub models_dir_present: bool,
    /// The model search locations, meaningful from `CheckModel` on.
    pub model_paths: Vec<String>,
    /// The fallback locations, meaningful from `CheckFallback` on.
    pub fallback_paths: Vec<String>,
    /// The resolved model file path, meaningful from `Invoke` on.
    pub model_path: String,
    /// The resolution used the language-restricted fallback: the
    /// transcription proceeds, possibly in the wrong language.
    pub used_fallback: bool,
    /// The engine's streams, kept for diagnostics.
    pub out_stdout: String,
    pub out_stderr: String,
    /// The transcribed text found so far, trimmed.
    pub text: String,
    pub state: TrState,
    /// The decision, exactly when the state is `Finished`.
    pub result: Option<Result<TranscriptionResult, String>>,
}

/// The home directory view the orchestration works with.
pub open spec fn home_or_empty(home: Option<String>) -> Seq<char> {
    match home {
        Some(h) => h@,
        None => Seq::<char>::empty(),
    }
}

/// The audio path with a `.txt` extension appended after its original
/// extension.
pub open spec fn side_appended_spec(path: Seq<char>) -> Seq<char> {
    path + ".txt"@
}

/// The position of the dot starting the path's extension, or a negative
/// value when its last component has none.
pub open spec fn ext_dot_index(path: Seq<char>) -> int
    decreases path.len(),
{
    if path.len() == 0 {
        -1
    } else if path[path.len() - 1] == '.' {
        path.len() - 1
    } else if path[path.len() - 1] == '/' {
        -1
    } else {
        ext_dot_index(path.drop_last())
    }
}

/// The audio path with its original extension replaced by `txt`.
pub open spec fn side_replaced_spec(path: Seq<char>) -> Seq<char> {
    if ext_dot_index(path) >= 0 {
        path.subrange(0, ext_dot_index(path)) + ".txt"@
    } else {
        path + ".txt"@
    }
}

/// The engine's fixed argument contract: model path, audio path, language,
/// no timestamps, plain-text output.
pub open spec fn engine_args_spec(
    model_path: Seq<char>,
    audio: Seq<char>,
    language: Seq<char>,
) -> Seq<Seq<char>> {
    seq!["-m"@, model_path, "-f"@, audio, "-l"@, language, "--no-timestamps"@, "-otxt"@]
}

/// The command line as rendered into diagnostics.
pub open spec fn invoke_display_spec(
    engine: Seq<char>,
    model_path: Seq<char>,
    audio: Seq<char>,
    language: Seq<char>,
) -> Seq<char> {
    engine + " -m "@ + model_path + " -f "@ + audio + " -l "@ + language
        + " --no-timestamps -otxt"@
}

/// The rendering of the engine's exit code, present or not.
pub open spec fn exit_code_view(code: Option<i32>) -> Seq<char> {
    match code {
        Some(v) => "Some("@ + i32_dec_spec(v as int) + ")"@,
        None => "None"@,
    }
}

/// The message for a missing audio file.
pub open spec fn msg_audio_missing(audio: Seq<char>) -> Seq<char> {
    "Audio file not found: "@ + audio
}

/// Every engine location the search has examined when it gives up: the
/// saved path when one was given, the installation-directory candidates, and
/// the search-path commands.
pub open spec fn checked_locations(s: Transcription) -> Seq<Seq<char>> {
    let tail = views_of(s.cfg.install_candidates@) + views_of(s.cfg.commands@);
    if s.override_missing {
        seq![s.cfg.whisper_path->Some_0@] + tail
    } else {
        tail
    }
}

/// The message when the saved engine path is absent and no engine is found;
/// it enumerates every location checked.
pub open spec fn msg_engine_missing_saved(p: Seq<char>, locations: Seq<Seq<char>>) -> Seq<char> {
    "Whisper binary not found. Saved path '"@ + p
        + "' does not exist and no whisper found in PATH.\nChecked locations:\n"@ + join_spec(
        locations,
        "\n"@,
    )
}

/// The message when no engine is found and none was saved; it enumerates
/// every location checked.
pub open spec fn msg_engine_missing(locations: Seq<Seq<char>>) -> Seq<char> {
    "Whisper binary not found. Please install whisper.cpp or configure the path in Settings.\nChecked locations:\n"@
        + join_spec(locations, "\n"@)
}

/// The message when the engine process cannot be spawned.
pub open spec fn msg_spawn_failed(cmd: Seq<char>, e: Seq<char>) -> Seq<char> {
    "Failed to execute whisper command.\nCommand: "@ + cmd + "\nError: "@ + e
        + "\n\nMake sure whisper.cpp is properly installed."@
}

/// The message when the engine exits non-zero, carrying both streams.
pub open spec fn msg_run_failed(
    code: Seq<char>,
    cmd: Seq<char>,
    stderr: Seq<char>,
    stdout: Seq<char>,
) -> Seq<char> {
    "Whisper transcription failed (exit code: "@ + code + ").\n\nCommand: "@ + cmd
        + "\n\nStderr:\n"@ + stderr + "\n\nStdout:\n"@ + stdout
}

/// The message when the engine succeeds but no usable text is found.
pub open spec fn msg_empty(stderr: Seq<char>, stdout: Seq<char>) -> Seq<char> {
    "Whisper returned empty transcription.\n\nThis could mean:\n- The audio is too short or silent\n- The audio format is not supported\n- Whisper couldn't process the file\n\nStderr: "@
        + stderr + "\nStdout: "@ + stdout
}

/// A successful result carrying `text` in `language`, with no duration.
pub open spec fn tr_ok_result(r: TranscriptionResult, text: Seq<char>, language: Seq<char>) -> bool {
    &&& r.text@ == text
    &&& r.language@ == language
    &&& r.duration_ms == 0
}

/// The machine's data is internally consistent.
pub open spec fn tr_wf(m: Transcription) -> bool {
    &&& views_eq(m.cfg.commands@, path_command_names())
    &&& match m.cfg.home {
        Some(h) => views_eq(
            m.cfg.install_candidates@,
            Seq::new(
                engine_binary_names().len(),
                |i: int| join_path_spec(install_dir_spec(h@), engine_binary_names()[i]),
            ),
        ),
        None => m.cfg.install_candidates@.len() == 0,
    }
    &&& (m.state is CheckOverride ==> m.cfg.whisper_path is Some)
    &&& (m.override_missing ==> m.cfg.whisper_path is Some)
    &&& (m.state matches TrState::ScanInstall { i } ==> i < m.cfg.install_candidates@.len())
    &&& (m.state matches TrState::ProbePath { i } ==> i < m.cfg.commands@.len())
    &&& (m.state matches TrState::CheckModel { i } ==> i < m.model_paths@.len()
        && tr_model_paths_ok(m))
    &&& (m.state matches TrState::CheckFallback { i } ==> i < m.fallback_paths@.len()
        && tr_model_paths_ok(m) && tr_fallback_paths_ok(m) && uses_multilingual(m.cfg.language@))
    &&& ((m.state is CheckSideB || m.state is ReadSideB || m.state is DeleteSideB)
        ==> side_replaced_spec(m.cfg.audio_path@) != m.cfg.audio_path@)
    &&& (m.result is Some <==> m.state is Finished)
}

/// The stored model search locations are the resolver's, for the chosen
/// file.
pub open spec fn tr_model_paths_ok(m: Transcription) -> bool {
    views_eq(
        m.model_paths@,
        model_search_paths_spec(
            home_or_empty(m.cfg.home),
            chosen_file_of(m.cfg.model@, m.cfg.language@),
            m.models_dir_present,
        ),
    )
}

/// The stored fallback locations are the resolver's, for the restricted
/// file.
pub open spec fn tr_fallback_paths_ok(m: Transcription) -> bool {
    views_eq(
        m.fallback_paths@,
        model_fallback_paths_spec(home_or_empty(m.cfg.home), english_file_of(m.cfg.model@)),
    )
}

/// The event kind answers the pending request; the cancellation signal is
/// accepted at any point before the decision.
pub open spec fn tr_event_fits(m: Transcription, ev: TrEvent) -> bool {
    if m.state is Finished {
        false
    } else if ev is Cancel {
        true
    } else {
        match m.state {
            TrState::CheckAudio => ev is Exists,
            TrState::CheckOverride => ev is Exists,
            TrState::ScanInstall { .. } => ev is Exists,
            TrState::ProbePath { .. } => ev is Help,
            TrState::CheckModelsDir => ev is Exists,
            TrState::CheckModel { .. } => ev is Exists,
            TrState::CheckFallback { .. } => ev is Exists,
            TrState::Invoke => ev is Run,
            TrState::CheckSideA => ev is Exists,
            TrState::ReadSideA => ev is FileRead,
            TrState::DeleteSideA => ev is Deleted,
            TrState::CheckSideB => ev is Exists,
            TrState::ReadSideB => ev is FileRead,
            TrState::DeleteSideB => ev is Deleted,
            TrState::Finished => false,
        }
    }
}

/// The step decided failure with message `msg`.
pub open spec fn tr_fail(t: Transcription, a: TrAction, msg: Seq<char>) -> bool {
    &&& t.state is Finished
    &&& t.result matches Some(Err(e)) && e@ == msg
    &&& a matches TrAction::Done(Err(e2)) && e2@ == msg
}

/// The step decided success with `text`.
pub open spec fn tr_done_ok(t: Transcription, a: TrAction, text: Seq<char>) -> bool {
    &&& t.state is Finished
    &&& t.result matches Some(Ok(res)) && tr_ok_result(res, text, t.cfg.language@)
    &&& a matches TrAction::Done(Ok(res2)) && tr_ok_result(res2, text, t.cfg.language@)
}

/// The engine search begins: the installation directory candidates when a
/// home is known, else the search-path probes.
pub open spec fn tr_search_entry(s: Transcription, t: Transcription, a: TrAction) -> bool {
    if s.cfg.install_candidates@.len() > 0 {
        &&& t.state matches TrState::ScanInstall { i } && i == 0
        &&& a matches TrAction::Stat(p) && p@ == s.cfg.install_candidates@[0]@
    } else {
        &&& t.state matches TrState::ProbePath { i } && i == 0
        &&& a matches TrAction::RunHelp(p) && p@ == "whisper"@
    }
}

/// The engine is resolved to `engine`; model resolution begins with the
/// stat of the installation directory.
pub open spec fn tr_engine_resolved(
    s: Transcription,
    t: Transcription,
    a: TrAction,
    engine: Seq<char>,
) -> bool {
    &&& t.engine@ == engine
    &&& t.state is CheckModelsDir
    &&& a matches TrAction::Stat(p) && p@ == install_dir_spec(home_or_empty(s.cfg.home))
}

/// The side file named by replacing the extension is examined next — unless
/// that name is the audio file itself, which is never read or deleted: the
/// orchestration then gives up on finding text.
pub open spec fn tr_to_side_b(s: Transcription, t: Transcription, a: TrAction) -> bool {
    if side_replaced_spec(s.cfg.audio_path@) == s.cfg.audio_path@ {
        tr_fail(t, a, msg_empty(s.out_stderr@, s.out_stdout@))
    } else {
        &&& tr_keep_output(s, t)
        &&& t.state is CheckSideB
        &&& a matches TrAction::Stat(p) && p@ == side_replaced_spec(s.cfg.audio_path@)
    }
}

/// The engine run is requested for the model at `mp`.
pub open spec fn tr_to_invoke(s: Transcription, t: Transcription, a: TrAction, mp: Seq<char>) -> bool {
    &&& t.state is Invoke
    &&& t.model_path@ == mp
    &&& a matches TrAction::RunEngine { program, args } && program@ == s.engine@ && views_eq(
        args@,
        engine_args_spec(mp, s.cfg.audio_path@, s.cfg.language@),
    )
}

/// The message for the chosen model file missing everywhere.
pub open spec fn tr_missing_model_msg(s: Transcription) -> Seq<char> {
    model_missing_msg_spec(
        chosen_file_of(s.cfg.model@, s.cfg.language@),
        views_of(s.model_paths@),
        s.cfg.language@,
        uses_multilingual(s.cfg.language@),
    )
}

/// How one reported outcome advances the orchestration, and what it
/// requests next.
pub open spec fn tr_step_spec(s: Transcription, ev: TrEvent, t: Transcription, a: TrAction) -> bool {
    &&& t.cfg == s.cfg
    &&& t.override_missing == (s.override_missing || (s.state is CheckOverride
        && ev matches TrEvent::Exists(false)))
    &&& if ev is Cancel {
        tr_fail(t, a, "Transcription cancelled"@)
    } else {
        tr_routine_step(s, ev, t, a)
    }
}

/// The orchestration's ordinary transitions, for every event but the
/// cancellation signal.
pub open spec fn tr_routine_step(s: Transcription, ev: TrEvent, t: Transcription, a: TrAction) -> bool {
    match s.state {
        TrState::CheckAudio => match ev {
            TrEvent::Exists(true) => match s.cfg.whisper_path {
                Some(p) => {
                    &&& t.state is CheckOverride
                    &&& a matches TrAction::Stat(q) && q@ == p@
                },
                None => tr_search_entry(s, t, a),
            },
            TrEvent::Exists(false) => tr_fail(t, a, msg_audio_missing(s.cfg.audio_path@)),
            _ => false,
        },
        TrState::CheckOverride => match ev {
            TrEvent::Exists(true) => s.cfg.whisper_path matches Some(p) && tr_engine_resolved(s, t, a, p@),
            TrEvent::Exists(false) => t.override_missing && tr_search_entry(s, t, a),
            _ => false,
        },
        TrState::ScanInstall { i } => match ev {
            TrEvent::Exists(true) => tr_engine_resolved(s, t, a, s.cfg.install_candidates@[i as int]@),
            TrEvent::Exists(false) => if i + 1 < s.cfg.install_candidates@.len() {
                &&& t.state matches TrState::ScanInstall { i: j } && j == i + 1
                &&& a matches TrAction::Stat(p) && p@ == s.cfg.install_candidates@[i + 1]@
            } else {
                &&& t.state matches TrState::ProbePath { i: j } && j == 0
                &&& a matches TrAction::RunHelp(p) && p@ == "whisper"@
            },
            _ => false,
        },
        TrState::ProbePath { i } => match ev {
            TrEvent::Help(run) => {
                if probe_exit_hit(run) {
                    tr_engine_resolved(s, t, a, s.cfg.commands@[i as int]@)
                } else if i + 1 < s.cfg.commands@.len() {
                    &&& t.state matches TrState::ProbePath { i: j } && j == i + 1
                    &&& a matches TrAction::RunHelp(p) && p@ == s.cfg.commands@[i + 1]@
                } else {
                    if s.override_missing {
                        s.cfg.whisper_path matches Some(p) && tr_fail(
                            t,
                            a,
                            msg_engine_missing_saved(p@, checked_locations(s)),
                        )
                    } else {
                        tr_fail(t, a, msg_engine_missing(checked_locations(s)))
                    }
                }
            },
            _ => false,
        },
        TrState::CheckModelsDir => match ev {
            TrEvent::Exists(d) => {
                &&& t.models_dir_present == d
                &&& t.engine@ == s.engine@
                &&& tr_model_paths_ok(t)
                &&& t.state matches TrState::CheckModel { i } && i == 0
                &&& a matches TrAction::Stat(p) && p@ == t.model_paths@[0]@
            },
            _ => false,
        },
        TrState::CheckModel { i } => match ev {
            TrEvent::Exists(true) => {
                &&& t.engine@ == s.engine@
                &&& !t.used_fallback
                &&& tr_to_invoke(s, t, a, s.model_paths@[i as int]@)
            },
            TrEvent::Exists(false) => if i + 1 < s.model_paths@.len() {
                &&& t.engine@ == s.engine@
                &&& t.model_paths@ == s.model_paths@
                &&& t.models_dir_present == s.models_dir_present
                &&& t.state matches TrState::CheckModel { i: j } && j == i + 1
                &&& a matches TrAction::Stat(p) && p@ == s.model_paths@[i + 1]@
            } else if uses_multilingual(s.cfg.language@) {
                &&& t.engine@ == s.engine@
                &&& t.model_paths@ == s.model_paths@
                &&& t.models_dir_present == s.models_dir_present
                &&& tr_fallback_paths_ok(t)
                &&& t.state matches TrState::CheckFallback { i: j } && j == 0
                &&& a matches TrAction::Stat(p) && p@ == t.fallback_paths@[0]@
            } else {
                tr_fail(t, a, tr_missing_model_msg(s))
            },
            _ => false,
        },
        TrState::CheckFallback { i } => match ev {
            TrEvent::Exists(true) => {
                &&& t.engine@ == s.engine@
                &&& t.used_fallback
                &&& tr_to_invoke(s, t, a, s.fallback_paths@[i as int]@)
            },
            TrEvent::Exists(false) => if i + 1 < s.fallback_paths@.len() {
                &&& t.engine@ == s.engine@
                &&& t.model_paths@ == s.model_paths@
                &&& t.fallback_paths@ == s.fallback_paths@
                &&& t.models_dir_present == s.models_dir_present
                &&& t.state matches TrState::CheckFallback { i: j } && j == i + 1
                &&& a matches TrAction::Stat(p) && p@ == s.fallback_paths@[i + 1]@
            } else {
                tr_fail(t, a, tr_missing_model_msg(s))
            },
            _ => false,
        },
        TrState::Invoke => match ev {
            TrEvent::Run(o) => {
                let cmd = invoke_display_spec(
                    s.engine@,
                    s.model_path@,
                    s.cfg.audio_path@,
                    s.cfg.language@,
                );
                if !o.spawned {
                    tr_fail(t, a, msg_spawn_failed(cmd, o.spawn_error@))
                } else if !o.exit_ok {
                    tr_fail(
                        t,
                        a,
                        msg_run_failed(exit_code_view(o.exit_code), cmd, o.stderr@, o.stdout@),
                    )
                } else {
                    let txt = trim_spec(o.stdout@);
                    if txt.len() > 0 {
                        tr_done_ok(t, a, txt)
                    } else {
                        &&& t.text@ == txt
                        &&& t.out_stdout@ == o.stdout@
                        &&& t.out_stderr@ == o.stderr@
                        &&& t.state is CheckSideA
                        &&& a matches TrAction::Stat(p) && p@ == side_appended_spec(
                            s.cfg.audio_path@,
                        )
                    }
                }
            },
            _ => false,
        },
        TrState::CheckSideA => match ev {
            TrEvent::Exists(true) => {
                &&& tr_keep_output(s, t)
                &&& t.state is ReadSideA
                &&& a matches TrAction::ReadFile(p) && p@ == side_appended_spec(s.cfg.audio_path@)
            },
            TrEvent::Exists(false) => tr_to_side_b(s, t, a),
            _ => false,
        },
        TrState::ReadSideA => match ev {
            TrEvent::FileRead(c) => {
                &&& t.out_stdout@ == s.out_stdout@
                &&& t.out_stderr@ == s.out_stderr@
                &&& t.text@ == (match c {
                    Some(x) => trim_spec(x@),
                    None => s.text@,
                })
                &&& t.state is DeleteSideA
                &&& a matches TrAction::DeleteFile(p) && p@ == side_appended_spec(
                    s.cfg.audio_path@,
                )
            },
            _ => false,
        },
        TrState::DeleteSideA => match ev {
            TrEvent::Deleted => if s.text@.len() > 0 {
                tr_done_ok(t, a, s.text@)
            } else {
                tr_to_side_b(s, t, a)
            },
            _ => false,
        },
        TrState::CheckSideB => match ev {
            TrEvent::Exists(true) => {
                &&& tr_keep_output(s, t)
                &&& t.state is ReadSideB
                &&& a matches TrAction::ReadFile(p) && p@ == side_replaced_spec(s.cfg.audio_path@)
            },
            TrEvent::Exists(false) => tr_fail(t, a, msg_empty(s.out_stderr@, s.out_stdout@)),
            _ => false,
        },
        TrState::ReadSideB => match ev {
            TrEvent::FileRead(c) => {
                &&& t.out_stdout@ == s.out_stdout@
                &&& t.out_stderr@ == s.out_stderr@
                &&& t.text@ == (match c {
                    Some(x) => trim_spec(x@),
                    None => s.text@,
                })
                &&& t.state is DeleteSideB
                &&& a matches TrAction::DeleteFile(p) && p@ == side_replaced_spec(
                    s.cfg.audio_path@,
                )
            },
            _ => false,
        },
        TrState::DeleteSideB => match ev {
            TrEvent::Deleted => if s.text@.len() > 0 {
                tr_done_ok(t, a, s.text@)
            } else {
                tr_fail(t, a, msg_empty(s.out_stderr@, s.out_stdout@))
            },
            _ => false,
        },
        TrState::Finished => false,
    }
}

/// Captured streams and text are kept.
pub open spec fn tr_keep_output(s: Transcription, t: Transcription) -> bool {
    &&& t.out_stdout@ == s.out_stdout@
    &&& t.out_stderr@ == s.out_stderr@
    &&& t.text@ == s.text@
}

impl Transcription {
    /// Begins a transcription of `audio_path` in `language` with the model
    /// size `model`, preferring the caller-supplied engine path. The first
    /// request is the stat of the audio file.
    pub fn transcribe_audio(
        audio_path: String,
        language: String,
        model: String,
        whisper_path: Option<String>,
        home: Option<String>,
    ) -> (r: (Transcription, TrAction))
        ensures
            tr_wf(r.0),
            r.0.state is CheckAudio,
            r.0.cfg.audio_path@ == audio_path@,
            r.0.cfg.language@ == language@,
            r.0.cfg.model@ == model@,
            (match whisper_path {
                Some(p) => r.0.cfg.whisper_path matches Some(q) && q@ == p@,
                None => r.0.cfg.whisper_path is None,
            }),
            (match home {
                Some(h) => r.0.cfg.home matches Some(g) && g@ == h@,
                None => r.0.cfg.home is None,
            }),
            r.1 matches TrAction::Stat(p) && p@ == audio_path@,
            !r.0.override_missing,
    {
        let install_candidates = match &home {
            Some(h) => engine_binary_candidates(h.as_str()),
            None => Vec::new(),
        };
        let action = TrAction::Stat(audio_path.clone());
        let m = Transcription {
            cfg: TrConfig {
                audio_path,
                language,
                model,
                whisper_path,
                home,
                install_candidates,
                commands: path_commands(),
            },
            override_missing: false,
            engine: String::new(),
            models_dir_present: false,
            model_paths: Vec::new(),
            fallback_paths: Vec::new(),
            model_path: String::new(),
            used_fallback: false,
            out_stdout: String::new(),
            out_stderr: String::new(),
            text: String::new(),
            state: TrState::CheckAudio,
            result: None,
        };
        (m, action)
    }

    /// Advances the orchestration by one reported outcome and returns the
    /// next request, or the decision.
    pub fn step(&mut self, ev: TrEvent) -> (a: TrAction)
        requires
            tr_wf(*old(self)),
            tr_event_fits(*old(self), ev),
        ensures
            tr_wf(*final(self)),
            tr_step_spec(*old(self), ev, *final(self), a),
    {
        if let TrEvent::Cancel = &ev {
            return self.finish_err(String::from_str("Transcription cancelled"));
        }
        let st = self.state;
        match st {
            TrState::CheckAudio => {
                let hit = match ev {
                    TrEvent::Exists(b) => b,
                    _ => vstd::pervasive::unreached(),
                };
                if !hit {
                    let mut msg = String::from_str("Audio file not found: ");
                    msg.append(self.cfg.audio_path.as_str());
                    self.finish_err(msg)
                } else {
                    match &self.cfg.whisper_path {
                        Some(p) => {
                            let q = p.clone();
                            self.state = TrState::CheckOverride;
                            TrAction::Stat(q)
                        },
                        None => self.enter_search(),
                    }
                }
            },
            TrState::CheckOverride => {
                let hit = match ev {
                    TrEvent::Exists(b) => b,
                    _ => vstd::pervasive::unreached(),
                };
                if hit {
                    let p = match &self.cfg.whisper_path {
                        Some(p) => p.clone(),
                        None => vstd::pervasive::unreached(),
                    };
                    self.enter_models_dir(p)
                } else {
                    self.override_missing = true;
                    self.enter_search()
                }
            },
            TrState::ScanInstall { i } => {
                let hit = match ev {
                    TrEvent::Exists(b) => b,
                    _ => vstd::pervasive::unreached(),
                };
                if hit {
                    let p = self.cfg.install_candidates[i].clone();
                    self.enter_models_dir(p)
                } else {
                    let n = self.cfg.install_candidates.len();
                    if i + 1 < n {
                        let next = self.cfg.install_candidates[i + 1].clone();
                        self.state = TrState::ScanInstall { i: i + 1 };
                        TrAction::Stat(next)
                    } else {
                        self.state = TrState::ProbePath { i: 0 };
                        TrAction::RunHelp(String::from_str("whisper"))
                    }
                }
            },
            TrState::ProbePath { i } => {
                let hit = match &ev {
                    TrEvent::Help(ProbeRun::Completed(o)) => o.exit_ok,
                    TrEvent::Help(_) => false,
                    _ => vstd::pervasive::unreached(),
                };
                if hit {
                    let p = self.cfg.commands[i].clone();
                    self.enter_models_dir(p)
                } else {
                    let n = self.cfg.commands.len();
                    if i + 1 < n {
                        let next = self.cfg.commands[i + 1].clone();
                        self.state = TrState::ProbePath { i: i + 1 };
                        TrAction::RunHelp(next)
                    } else if self.override_missing {
                        let p = match &self.cfg.whisper_path {
                            Some(p) => p.clone(),
                            None => vstd::pervasive::unreached(),
                        };
                        let listing = self.checked_locations_text();
                        let mut msg = String::from_str("Whisper binary not found. Saved path '");
                        msg.append(p.as_str());
                        msg.append(
                            "' does not exist and no whisper found in PATH.\nChecked locations:\n",
                        );
                        msg.append(listing.as_str());
                        self.finish_err(msg)
                    } else {
                        let listing = self.checked_locations_text();
                        let mut msg = String::from_str(
                            "Whisper binary not found. Please install whisper.cpp or configure the path in Settings.\nChecked locations:\n",
                        );
                        msg.append(listing.as_str());
                        self.finish_err(msg)
                    }
                }
            },
            TrState::CheckModelsDir => {
                let present = match ev {
                    TrEvent::Exists(b) => b,
                    _ => vstd::pervasive::unreached(),
                };
                let home_str = match &self.cfg.home {
                    Some(h) => h.as_str(),
                    None => "",
                };
                proof {
                    reveal_strlit("");
                    assert(""@ =~= Seq::<char>::empty());
                }
                let file = chosen_file_name(self.cfg.model.as_str(), self.cfg.language.as_str());
                let paths = model_search_paths(home_str, file.as_str(), present);
                let first = paths[0].clone();
                self.models_dir_present = present;
                self.model_paths = paths;
                self.state = TrState::CheckModel { i: 0 };
                TrAction::Stat(first)
            },
            TrState::CheckModel { i } => {
                let hit = match ev {
                    TrEvent::Exists(b) => b,
                    _ => vstd::pervasive::unreached(),
                };
                if hit {
                    let mp = self.model_paths[i].clone();
                    self.used_fallback = false;
                    self.enter_invoke(mp)
                } else {
                    let n = self.model_paths.len();
                    if i + 1 < n {
                        let next = self.model_paths[i + 1].clone();
                        self.state = TrState::CheckModel { i: i + 1 };
                        TrAction::Stat(next)
                    } else {
                        let multi = !str_eq(self.cfg.language.as_str(), "en");
                        if multi {
                            let home_str = match &self.cfg.home {
                                Some(h) => h.as_str(),
                                None => "",
                            };
                            proof {
                                reveal_strlit("");
                                assert(""@ =~= Seq::<char>::empty());
                            }
                            let fbname = english_file_name(self.cfg.model.as_str());
                            let fbpaths = model_fallback_paths(home_str, fbname.as_str());
                            let first = fbpaths[0].clone();
                            self.fallback_paths = fbpaths;
                            self.state = TrState::CheckFallback { i: 0 };
                            TrAction::Stat(first)
                        } else {
                            self.finish_model_missing()
                        }
                    }
                }
            },
            TrState::CheckFallback { i } => {
                let hit = match ev {
                    TrEvent::Exists(b) => b,
                    _ => vstd::pervasive::unreached(),
                };
                if hit {
                    let mp = self.fallback_paths[i].clone();
                    self.used_fallback = true;
                    self.enter_invoke(mp)
                } else {
                    let n = self.fallback_paths.len();
                    if i + 1 < n {
                        let next = self.fallback_paths[i + 1].clone();
                        self.state = TrState::CheckFallback { i: i + 1 };
                        TrAction::Stat(next)
                    } else {
                        self.finish_model_missing()
                    }
                }
            },
            TrState::Invoke => {
                let o = match ev {
                    TrEvent::Run(o) => o,
                    _ => vstd::pervasive::unreached(),
                };
                if !o.spawned {
                    let cmd = self.invoke_display();
                    let mut msg = String::from_str("Failed to execute whisper command.\nCommand: ");
                    msg.append(cmd.as_str());
                    msg.append("\nError: ");
                    msg.append(o.spawn_error.as_str());
                    msg.append("\n\nMake sure whisper.cpp is properly installed.");
                    self.finish_err(msg)
                } else if !o.exit_ok {
                    let cmd = self.invoke_display();
                    let code = match o.exit_code {
                        Some(v) => {
                            let mut c = String::from_str("Some(");
                            let digits = i32_to_string(v);
                            c.append(digits.as_str());
                            c.append(")");
                            c
                        },
                        None => String::from_str("None"),
                    };
                    let mut msg = String::from_str("Whisper transcription failed (exit code: ");
                    msg.append(code.as_str());
                    msg.append(").\n\nCommand: ");
                    msg.append(cmd.as_str());
                    msg.append("\n\nStderr:\n");
                    msg.append(o.stderr.as_str());
                    msg.append("\n\nStdout:\n");
                    msg.append(o.stdout.as_str());
                    self.finish_err(msg)
                } else {
                    let txt = trim(o.stdout.as_str());
                    if !txt.as_str().is_empty() {
                        self.finish_ok(txt)
                    } else {
                        let side = side_appended(self.cfg.audio_path.as_str());
                        self.text = txt;
                        self.out_stdout = o.stdout;
                        self.out_stderr = o.stderr;
                        self.state = TrState::CheckSideA;
                        TrAction::Stat(side)
                    }
                }
            },
            TrState::CheckSideA => {
                let hit = match ev {
                    TrEvent::Exists(b) => b,
                    _ => vstd::pervasive::unreached(),
                };
                if hit {
                    let side = side_appended(self.cfg.audio_path.as_str());
                    self.state = TrState::ReadSideA;
                    TrAction::ReadFile(side)
                } else {
                    self.enter_side_b()
                }
            },
            TrState::ReadSideA => {
                let c = match ev {
                    TrEvent::FileRead(c) => c,
                    _ => vstd::pervasive::unreached(),
                };
                if let Some(x) = c {
                    self.text = trim(x.as_str());
                }
                let side = side_appended(self.cfg.audio_path.as_str());
                self.state = TrState::DeleteSideA;
                TrAction::DeleteFile(side)
            },
            TrState::DeleteSideA => {
                if !self.text.as_str().is_empty() {
                    let txt = self.text.clone();
                    self.finish_ok(txt)
                } else {
                    self.enter_side_b()
                }
            },
            TrState::CheckSideB => {
                let hit = match ev {
                    TrEvent::Exists(b) => b,
                    _ => vstd::pervasive::unreached(),
                };
                if hit {
                    let side = side_replaced(self.cfg.audio_path.as_str());
                    self.state = TrState::ReadSideB;
                    TrAction::ReadFile(side)
                } else {
                    self.finish_empty()
                }
            },
            TrState::ReadSideB => {
                let c = match ev {
                    TrEvent::FileRead(c) => c,
                    _ => vstd::pervasive::unreached(),
                };
                if let Some(x) = c {
                    self.text = trim(x.as_str());
                }
                let side = side_replaced(self.cfg.audio_path.as_str());
                self.state = TrState::DeleteSideB;
                TrAction::DeleteFile(side)
            },
            TrState::DeleteSideB => {
                if !self.text.as_str().is_empty() {
                    let txt = self.text.clone();
                    self.finish_ok(txt)
                } else {
                    self.finish_empty()
                }
            },
            TrState::Finished => vstd::pervasive::unreached(),
        }
    }

    fn enter_search(&mut self) -> (a: TrAction)
        requires
            tr_wf(*old(self)),
            !(old(self).state is Finished),
        ensures
            final(self).cfg == old(self).cfg,
            final(self).override_missing == old(self).override_missing,
            final(self).result == old(self).result,
            tr_wf(*final(self)),
            !(final(self).state is Finished),
            tr_search_entry(*old(self), *final(self), a),
    {
        let n = self.cfg.install_candidates.len();
        if n > 0 {
            let first = self.cfg.install_candidates[0].clone();
            self.state = TrState::ScanInstall { i: 0 };
            TrAction::Stat(first)
        } else {
            self.state = TrState::ProbePath { i: 0 };
            TrAction::RunHelp(String::from_str("whisper"))
        }
    }

    fn enter_models_dir(&mut self, engine: String) -> (a: TrAction)
        requires
            tr_wf(*old(self)),
            !(old(self).state is Finished),
        ensures
            final(self).cfg == old(self).cfg,
            final(self).override_missing == old(self).override_missing,
            final(self).result == old(self).result,
            tr_wf(*final(self)),
            tr_engine_resolved(*old(self), *final(self), a, engine@),
    {
        let home_str = match &self.cfg.home {
            Some(h) => h.as_str(),
            None => "",
        };
        proof {
            reveal_strlit("");
            assert(""@ =~= Seq::<char>::empty());
        }
        let dir = install_dir(home_str);
        self.engine = engine;
        self.state = TrState::CheckModelsDir;
        TrAction::Stat(dir)
    }

    fn enter_side_b(&mut self) -> (a: TrAction)
        requires
            tr_wf(*old(self)),
            !(old(self).state is Finished),
        ensures
            final(self).cfg == old(self).cfg,
            final(self).override_missing == old(self).override_missing,
            tr_wf(*final(self)),
            tr_to_side_b(*old(self), *final(self), a),
    {
        let side = side_replaced(self.cfg.audio_path.as_str());
        if str_eq(side.as_str(), self.cfg.audio_path.as_str()) {
            self.finish_empty()
        } else {
            self.state = TrState::CheckSideB;
            TrAction::Stat(side)
        }
    }

    fn enter_invoke(&mut self, model_path: String) -> (a: TrAction)
        requires
            tr_wf(*old(self)),
            !(old(self).state is Finished),
        ensures
            final(self).cfg == old(self).cfg,
            final(self).override_missing == old(self).override_missing,
            final(self).result == old(self).result,
            final(self).engine@ == old(self).engine@,
            final(self).used_fallback == old(self).used_fallback,
            tr_wf(*final(self)),
            tr_to_invoke(*old(self), *final(self), a, model_path@),
    {
        let mut args: Vec<String> = Vec::new();
        args.push(String::from_str("-m"));
        args.push(model_path.clone());
        args.push(String::from_str("-f"));
        args.push(self.cfg.audio_path.clone());
        args.push(String::from_str("-l"));
        args.push(self.cfg.language.clone());
        args.push(String::from_str("--no-timestamps"));
        args.push(String::from_str("-otxt"));
        let program = self.engine.clone();
        self.model_path = model_path;
        self.state = TrState::Invoke;
        proof {
            assert(views_eq(
                args@,
                engine_args_spec(
                    final(self).model_path@,
                    final(self).cfg.audio_path@,
                    final(self).cfg.language@,
                ),
            ));
        }
        TrAction::RunEngine { program, args }
    }

    fn checked_locations_text(&self) -> (r: String)
        requires
            self.override_missing ==> self.cfg.whisper_path is Some,
        ensures
            r@ == join_spec(checked_locations(*self), "\n"@),
    {
        let off: usize = if self.override_missing {
            1
        } else {
            0
        };
        let mut locations: Vec<String> = Vec::new();
        if self.override_missing {
            match &self.cfg.whisper_path {
                Some(p) => locations.push(p.clone()),
                None => vstd::pervasive::unreached(),
            }
        }
        let nc = self.cfg.install_candidates.len();
        let mut i: usize = 0;
        while i < nc
            invariant
                nc == self.cfg.install_candidates@.len(),
                off == (if self.override_missing { 1int } else { 0int }),
                self.override_missing ==> self.cfg.whisper_path is Some,
                i <= nc,
                locations@.len() == off + i,
                self.override_missing ==> locations@[0]@ == self.cfg.whisper_path->Some_0@,
                forall|k: int|
                    0 <= k < i ==> locations@[off + k]@ == self.cfg.install_candidates@[k]@,
            decreases nc - i,
        {
            locations.push(self.cfg.install_candidates[i].clone());
            i += 1;
        }
        let nj = self.cfg.commands.len();
        let mut j: usize = 0;
        while j < nj
            invariant
                nc == self.cfg.install_candidates@.len(),
                nj == self.cfg.commands@.len(),
                off == (if self.override_missing { 1int } else { 0int }),
                self.override_missing ==> self.cfg.whisper_path is Some,
                j <= nj,
                locations@.len() == off + nc + j,
                self.override_missing ==> locations@[0]@ == self.cfg.whisper_path->Some_0@,
                forall|k: int|
                    0 <= k < nc ==> locations@[off + k]@ == self.cfg.install_candidates@[k]@,
                forall|k: int| 0 <= k < j ==> locations@[off + nc + k]@ == self.cfg.commands@[k]@,
            decreases nj - j,
        {
            locations.push(self.cfg.commands[j].clone());
            j += 1;
        }
        proof {
            assert(views_of(locations@) =~= checked_locations(*self));
        }
        join(&locations, "\n")
    }

    fn invoke_display(&self) -> (r: String)
        ensures
            r@ == invoke_display_spec(
                self.engine@,
                self.model_path@,
                self.cfg.audio_path@,
                self.cfg.language@,
            ),
    {
        let mut out = self.engine.clone();
        out.append(" -m ");
        out.append(self.model_path.as_str());
        out.append(" -f ");
        out.append(self.cfg.audio_path.as_str());
        out.append(" -l ");
        out.append(self.cfg.language.as_str());
        out.append(" --no-timestamps -otxt");
        out
    }

    fn finish_err(&mut self, msg: String) -> (a: TrAction)
        requires
            tr_wf(*old(self)),
        ensures
            final(self).cfg == old(self).cfg,
            final(self).override_missing == old(self).override_missing,
            tr_wf(*final(self)),
            tr_fail(*final(self), a, msg@),
    {
        let announce = msg.clone();
        self.result = Some(Err(msg));
        self.state = TrState::Finished;
        TrAction::Done(Err(announce))
    }

    fn finish_ok(&mut self, text: String) -> (a: TrAction)
        requires
            tr_wf(*old(self)),
        ensures
            final(self).cfg == old(self).cfg,
            final(self).override_missing == old(self).override_missing,
            tr_wf(*final(self)),
            tr_done_ok(*final(self), a, text@),
    {
        let res = TranscriptionResult {
            text: text.clone(),
            language: self.cfg.language.clone(),
            duration_ms: 0,
        };
        let announce = TranscriptionResult {
            text,
            language: self.cfg.language.clone(),
            duration_ms: 0,
        };
        self.result = Some(Ok(res));
        self.state = TrState::Finished;
        TrAction::Done(Ok(announce))
    }

    fn finish_empty(&mut self) -> (a: TrAction)
        requires
            tr_wf(*old(self)),
        ensures
            final(self).cfg == old(self).cfg,
            final(self).override_missing == old(self).override_missing,
            tr_wf(*final(self)),
            tr_fail(*final(self), a, msg_empty(old(self).out_stderr@, old(self).out_stdout@)),
    {
        let mut msg = String::from_str(
            "Whisper returned empty transcription.\n\nThis could mean:\n- The audio is too short or silent\n- The audio format is not supported\n- Whisper couldn't process the file\n\nStderr: ",
        );
        msg.append(self.out_stderr.as_str());
        msg.append("\nStdout: ");
        msg.append(self.out_stdout.as_str());
        self.finish_err(msg)
    }

    fn finish_model_missing(&mut self) -> (a: TrAction)
        requires
            tr_wf(*old(self)),
            tr_model_paths_ok(*old(self)),
        ensures
            final(self).cfg == old(self).cfg,
            final(self).override_missing == old(self).override_missing,
            tr_wf(*final(self)),
            tr_fail(*final(self), a, tr_missing_model_msg(*old(self))),
    {
        let multi = !str_eq(self.cfg.language.as_str(), "en");
        let file = chosen_file_name(self.cfg.model.as_str(), self.cfg.language.as_str());
        let msg = model_missing_message(
            file.as_str(),
            &self.model_paths,
            self.cfg.language.as_str(),
            multi,
        );
        self.finish_err(msg)
    }
}

/// The caller's audio file is never deleted: every delete the orchestration
/// requests names a side file distinct from the audio path, whatever the
/// outcome of the run.
pub proof fn lemma_audio_never_deleted(s: Transcription, ev: TrEvent, t: Transcription, a: TrAction)
    requires
        tr_wf(s),
        tr_step_spec(s, ev, t, a),
    ensures
        a matches TrAction::DeleteFile(p) ==> p@ != s.cfg.audio_path@,
{
    reveal_strlit(".txt");
    assert(side_appended_spec(s.cfg.audio_path@).len() == s.cfg.audio_path@.len() + 4);
}

/// A present language-restricted fallback is taken, never an error: when the
/// examined fallback candidate exists, the next request runs the engine with
/// that candidate as the model argument, and the resolution is marked as a
/// fallback.
pub proof fn lemma_fallback_proceeds(
    s: Transcription,
    ev: TrEvent,
    t: Transcription,
    a: TrAction,
    i: usize,
)
    requires
        tr_wf(s),
        s.state == (TrState::CheckFallback { i }),
        ev == TrEvent::Exists(true),
        tr_step_spec(s, ev, t, a),
    ensures
        t.state is Invoke,
        t.used_fallback,
        a matches TrAction::RunEngine { program, args } && program@ == s.engine@ && args@.len()
            == 8 && args@[1]@ == s.fallback_paths@[i as int]@,
{
}

proof fn lemma_ext_scan(s: Seq<char>, i: int)
    requires
        0 <= i <= s.len(),
        forall|j: int| i <= j < s.len() ==> !(s[j] == '.' || s[j] == '/'),
    ensures
        ext_dot_index(s) == ext_dot_index(s.subrange(0, i)),
    decreases s.len() - i,
{
    if i == s.len() {
        assert(s.subrange(0, i) =~= s);
    } else {
        assert(s[s.len() - 1] != '.' && s[s.len() - 1] != '/');
        assert(ext_dot_index(s) == ext_dot_index(s.drop_last()));
        assert(s.drop_last() =~= s.subrange(0, s.len() - 1));
        lemma_ext_scan(s.subrange(0, s.len() - 1), i);
        assert(s.subrange(0, s.len() - 1).subrange(0, i) =~= s.subrange(0, i));
    }
}

fn ext_dot_pos(path: &str) -> (r: Option<usize>)
    ensures
        match r {
            Some(d) => ext_dot_index(path@) == d && d < path@.len(),
            None => ext_dot_index(path@) < 0,
        },
{
    let len: usize = path.unicode_len();
    let mut i: usize = len;
    while i > 0
        invariant
            len == path@.len(),
            i <= len,
            forall|j: int| i <= j < len ==> !(path@[j] == '.' || path@[j] == '/'),
        decreases i,
    {
        let c = path.get_char(i - 1);
        if c == '.' {
            proof {
                lemma_ext_scan(path@, i as int);
                assert(path@.subrange(0, i as int)[i - 1] == '.');
            }
            return Some(i - 1);
        }
        if c == '/' {
            proof {
                lemma_ext_scan(path@, i as int);
                assert(path@.subrange(0, i as int)[i - 1] == '/');
            }
            return None;
        }
        i -= 1;
    }
    proof {
        lemma_ext_scan(path@, 0);
        assert(path@.subrange(0, 0) =~= Seq::<char>::empty());
    }
    None
}

/// Returns the side-file path with `.txt` appended after the original
/// extension.
pub fn side_appended(path: &str) -> (r: String)
    ensures
        r@ == side_appended_spec(path@),
{
    let base = String::from_str(path);
    base.concat(".txt")
}

/// Returns the side-file path with the original extension replaced by
/// `txt`.
pub fn side_replaced(path: &str) -> (r: String)
    ensures
        r@ == side_replaced_spec(path@),
{
    match ext_dot_pos(path) {
        Some(d) => {
            let stem = path.substring_char(0, d);
            let base = String::from_str(stem);
            base.concat(".txt")
        },
        None => {
            let base = String::from_str(path);
            base.concat(".txt")
        },
    }
}

} // verus!
