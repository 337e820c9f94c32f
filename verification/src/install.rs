//! Engine installation: ensures the installation directory, then follows the
//! platform's route — a prebuilt archive plus the two base models on
//! Windows, a package manager on macOS, manual instructions elsewhere. The
//! caller performs each requested stat, directory creation or process run
//! and reports the outcome as an event.

use vstd::prelude::*;
use crate::paths::{install_dir, install_dir_spec, join_path, join_path_spec};
use crate::registry::{model_url, model_url_spec};

verus! {

/// The platform the installation runs on.
#[derive(Clone, Copy, Debug, PartialEq, Eq, Structural)]
pub enum Platform {
    Windows,
    MacOs,
    Linux,
    Other,
}

/// Outcome of one installation attempt. An unsuccessful route that was
/// followed to its end reports `success == false` with instructions; only
/// environment faults are errors.
pub struct InstallResult {
    pub success: bool,
    pub message: String,
    pub path: Option<String>,
}

/// The archive fetched on Windows.
pub open spec fn archive_url_spec() -> Seq<char> {
    "https://github.com/ggerganov/whisper.cpp/releases/download/v1.5.4/whisper-bin-x64.zip"@
}

/// The model files installed alongside the Windows binaries: the
/// language-restricted and the multilingual base model.
pub open spec fn inst_model_name(i: int) -> Seq<char> {
    if i == 0 {
        "ggml-base.en.bin"@
    } else {
        "ggml-base.bin"@
    }
}

fn inst_model_name_exec(i: usize) -> (r: &'static str)
    requires
        i < 2,
    ensures
        r@ == inst_model_name(i as int),
{
    if i == 0 {
        "ggml-base.en.bin"
    } else {
        "ggml-base.bin"
    }
}

/// Where the installation stands: what outcome it awaits.
#[derive(Clone, Copy)]
pub enum InstState {
    /// Stat the installation directory.
    CheckDir,
    /// Create the installation directory.
    CreateDir,
    /// Fetch the prebuilt archive.
    DownloadArchive,
    /// Unpack the archive into the installation directory.
    Extract,
    /// Stat model file `i`.
    CheckModel { i: usize },
    /// Fetch model file `i`; a failed fetch is logged over, not fatal.
    FetchModel { i: usize },
    /// Stat installed binary candidate `i`.
    CheckBinary { i: usize },
    /// Run the package manager.
    RunBrew,
    /// The installation is decided; the result is held beside the state.
    Finished,
}

/// What the machine asks the caller to do next.
pub enum InstAction {
    /// Report whether this path exists.
    Stat(String),
    /// Create this directory and every missing parent.
    CreateDirAll(String),
    /// Fetch `url` into `outfile` and report the process outcome.
    RunDownload { url: String, outfile: String },
    /// Unpack `archive` into `dest` and report the process outcome.
    RunExtract { archive: String, dest: String },
    /// Install the engine through the package manager.
    RunBrew,
    /// The installation is decided.
    Done(Result<InstallResult, String>),
}

/// The outcome the caller reports for the last requested action.
pub enum InstEvent {
    /// The stat's result.
    Exists(bool),
    /// Directory creation: `None` on success, otherwise the error.
    Dir(Option<String>),
    /// A process outcome: whether it spawned, the spawn error otherwise, and
    /// whether it exited with status zero.
    Proc { spawned: bool, spawn_error: String, exit_ok: bool },
}

/// One installation in progress.
pub struct InstallFlow {
    pub platform: Platform,
    /// The installation directory.
    pub dir: String,
    pub state: InstState,
    /// The decision, exactly when the state is `Finished`.
    pub result: Option<Result<InstallResult, String>>,
}

/// The machine's data is internally consistent.
pub open spec fn inst_wf(m: InstallFlow) -> bool {
    &&& (m.state matches InstState::CheckModel { i } ==> i < 2)
    &&& (m.state matches InstState::FetchModel { i } ==> i < 2)
    &&& (m.state matches InstState::CheckBinary { i } ==> i < 2)
    &&& (m.result is Some <==> m.state is Finished)
}

/// The event kind answers the pending request.
pub open spec fn inst_event_fits(m: InstallFlow, ev: InstEvent) -> bool {
    match m.state {
        InstState::CheckDir => ev is Exists,
        InstState::CreateDir => ev is Dir,
        InstState::DownloadArchive => ev is Proc,
        InstState::Extract => ev is Proc,
        InstState::CheckModel { .. } => ev is Exists,
        InstState::FetchModel { .. } => ev is Proc,
        InstState::CheckBinary { .. } => ev is Exists,
        InstState::RunBrew => ev is Proc,
        InstState::Finished => false,
    }
}

/// The step decided a hard failure with message `msg`.
pub open spec fn inst_fail(t: InstallFlow, a: InstAction, msg: Seq<char>) -> bool {
    &&& t.state is Finished
    &&& t.result matches Some(Err(e)) && e@ == msg
    &&& a matches InstAction::Done(Err(e2)) && e2@ == msg
}

/// `r` reports outcome `success` with `message` and optionally a path.
pub open spec fn inst_result_is(
    r: InstallResult,
    success: bool,
    message: Seq<char>,
    path: Option<Seq<char>>,
) -> bool {
    &&& r.success == success
    &&& r.message@ == message
    &&& match path {
        Some(p) => r.path matches Some(q) && q@ == p,
        None => r.path is None,
    }
}

/// The step decided an outcome that is reported, not raised.
pub open spec fn inst_done(
    t: InstallFlow,
    a: InstAction,
    success: bool,
    message: Seq<char>,
    path: Option<Seq<char>>,
) -> bool {
    &&& t.state is Finished
    &&& t.result matches Some(Ok(r)) && inst_result_is(r, success, message, path)
    &&& a matches InstAction::Done(Ok(r2)) && inst_result_is(r2, success, message, path)
}

/// The platform's route begins once the installation directory is in place.
pub open spec fn inst_route_entry(s: InstallFlow, t: InstallFlow, a: InstAction) -> bool {
    match s.platform {
        Platform::Windows => {
            &&& t.state is DownloadArchive
            &&& a matches InstAction::RunDownload { url, outfile } && url@ == archive_url_spec()
                && outfile@ == join_path_spec(s.dir@, "whisper.zip"@)
        },
        Platform::MacOs => {
            &&& t.state is RunBrew
            &&& a is RunBrew
        },
        Platform::Linux => inst_done(
            t,
            a,
            false,
            "Please install whisper.cpp manually: https://github.com/ggerganov/whisper.cpp"@,
            None,
        ),
        Platform::Other => inst_done(t, a, false, "Unsupported platform"@, None),
    }
}

/// The scan for the installed binary begins, or continues past candidate
/// `i`; past the last candidate the installation directory itself is
/// reported.
pub open spec fn inst_binary_scan(s: InstallFlow, t: InstallFlow, a: InstAction, i: int) -> bool {
    if i == 0 {
        &&& t.state matches InstState::CheckBinary { i: j } && j == 0
        &&& a matches InstAction::Stat(p) && p@ == join_path_spec(s.dir@, "whisper.exe"@)
    } else if i == 1 {
        &&& t.state matches InstState::CheckBinary { i: j } && j == 1
        &&& a matches InstAction::Stat(p) && p@ == join_path_spec(s.dir@, "main.exe"@)
    } else {
        inst_done(
            t,
            a,
            true,
            "Whisper.cpp installed to "@ + s.dir@,
            Some(s.dir@),
        )
    }
}

/// The model scan moves to model `i`, or past the last model to the binary
/// scan.
pub open spec fn inst_model_scan(s: InstallFlow, t: InstallFlow, a: InstAction, i: int) -> bool {
    if i < 2 {
        &&& t.state matches InstState::CheckModel { i: j } && j == i
        &&& a matches InstAction::Stat(p) && p@ == join_path_spec(s.dir@, inst_model_name(i))
    } else {
        inst_binary_scan(s, t, a, 0)
    }
}

/// How one reported outcome advances the installation, and what it requests
/// next.
pub open spec fn inst_step_spec(s: InstallFlow, ev: InstEvent, t: InstallFlow, a: InstAction) -> bool {
    &&& t.platform == s.platform
    &&& t.dir@ == s.dir@
    &&& match s.state {
        InstState::CheckDir => match ev {
            InstEvent::Exists(true) => inst_route_entry(s, t, a),
            InstEvent::Exists(false) => {
                &&& t.state is CreateDir
                &&& a matches InstAction::CreateDirAll(p) && p@ == s.dir@
            },
            _ => false,
        },
        InstState::CreateDir => match ev {
            InstEvent::Dir(None) => inst_route_entry(s, t, a),
            InstEvent::Dir(Some(e)) => inst_fail(t, a, "Failed to create directory: "@ + e@),
            _ => false,
        },
        InstState::DownloadArchive => match ev {
            InstEvent::Proc { spawned, spawn_error, exit_ok } => {
                if !spawned {
                    inst_fail(t, a, "Failed to download: "@ + spawn_error@)
                } else if !exit_ok {
                    inst_done(
                        t,
                        a,
                        false,
                        "Failed to download whisper.cpp. Please install manually."@,
                        None,
                    )
                } else {
                    &&& t.state is Extract
                    &&& a matches InstAction::RunExtract { archive, dest } && archive@
                        == join_path_spec(s.dir@, "whisper.zip"@) && dest@ == s.dir@
                }
            },
            _ => false,
        },
        InstState::Extract => match ev {
            InstEvent::Proc { spawned, spawn_error, exit_ok } => {
                if !spawned {
                    inst_fail(t, a, "Failed to extract: "@ + spawn_error@)
                } else if !exit_ok {
                    inst_done(
                        t,
                        a,
                        false,
                        "Failed to extract whisper.cpp. Please install manually."@,
                        None,
                    )
                } else {
                    inst_model_scan(s, t, a, 0)
                }
            },
            _ => false,
        },
        InstState::CheckModel { i } => match ev {
            InstEvent::Exists(true) => inst_model_scan(s, t, a, i + 1),
            InstEvent::Exists(false) => {
                &&& t.state matches InstState::FetchModel { i: j } && j == i
                &&& a matches InstAction::RunDownload { url, outfile } && url@ == model_url_spec(
                    inst_model_name(i as int),
                ) && outfile@ == join_path_spec(s.dir@, inst_model_name(i as int))
            },
            _ => false,
        },
        InstState::FetchModel { i } => match ev {
            InstEvent::Proc { spawned, spawn_error, exit_ok } => {
                if !spawned {
                    inst_fail(
                        t,
                        a,
                        "Failed to download model "@ + inst_model_name(i as int) + ": "@
                            + spawn_error@,
                    )
                } else {
                    // A fetch that ran but failed is logged over: the other
                    // models are still tried.
                    inst_model_scan(s, t, a, i + 1)
                }
            },
            _ => false,
        },
        InstState::CheckBinary { i } => match ev {
            InstEvent::Exists(true) => {
                let name = if i == 0 {
                    "whisper.exe"@
                } else {
                    "main.exe"@
                };
                inst_done(
                    t,
                    a,
                    true,
                    "Whisper.cpp installed to "@ + s.dir@,
                    Some(join_path_spec(s.dir@, name)),
                )
            },
            InstEvent::Exists(false) => inst_binary_scan(s, t, a, i + 1),
            _ => false,
        },
        InstState::RunBrew => match ev {
            InstEvent::Proc { spawned, spawn_error, exit_ok } => {
                if spawned && exit_ok {
                    inst_done(
                        t,
                        a,
                        true,
                        "Whisper.cpp installed via Homebrew"@,
                        Some("whisper"@),
                    )
                } else {
                    inst_done(
                        t,
                        a,
                        false,
                        "Failed to install via Homebrew. Please run: brew install whisper-cpp"@,
                        None,
                    )
                }
            },
            _ => false,
        },
        InstState::Finished => false,
    }
}

impl InstallFlow {
    /// Begins an installation on `platform`. Without a home directory the
    /// installation is decided at once; otherwise the first request is the
    /// stat of the installation directory.
    pub fn install_whisper(platform: Platform, home: Option<&str>) -> (r: (
        InstallFlow,
        InstAction,
    ))
        ensures
            inst_wf(r.0),
            r.0.platform == platform,
            match home {
                Some(h) => {
                    &&& r.0.dir@ == install_dir_spec(h@)
                    &&& r.0.state is CheckDir
                    &&& r.1 matches InstAction::Stat(p) && p@ == install_dir_spec(h@)
                },
                None => inst_fail(r.0, r.1, "Could not find home directory"@),
            },
    {
        match home {
            Some(h) => {
                let dir = install_dir(h);
                let action = InstAction::Stat(dir.clone());
                let m = InstallFlow { platform, dir, state: InstState::CheckDir, result: None };
                (m, action)
            },
            None => {
                let msg = String::from_str("Could not find home directory");
                let announce = msg.clone();
                let m = InstallFlow {
                    platform,
                    dir: String::new(),
                    state: InstState::Finished,
                    result: Some(Err(msg)),
                };
                (m, InstAction::Done(Err(announce)))
            },
        }
    }

    /// Advances the installation by one reported outcome and returns the
    /// next request, or the decision.
    pub fn step(&mut self, ev: InstEvent) -> (a: InstAction)
        requires
            inst_wf(*old(self)),
            inst_event_fits(*old(self), ev),
        ensures
            inst_wf(*final(self)),
            inst_step_spec(*old(self), ev, *final(self), a),
    {
        let st = self.state;
        match st {
            InstState::CheckDir => {
                let hit = match ev {
                    InstEvent::Exists(b) => b,
                    _ => vstd::pervasive::unreached(),
                };
                if hit {
                    self.enter_route()
                } else {
                    let p = self.dir.clone();
                    self.state = InstState::CreateDir;
                    InstAction::CreateDirAll(p)
                }
            },
            InstState::CreateDir => {
                let err = match ev {
                    InstEvent::Dir(e) => e,
                    _ => vstd::pervasive::unreached(),
                };
                match err {
                    None => self.enter_route(),
                    Some(e) => {
                        let mut msg = String::from_str("Failed to create directory: ");
                        msg.append(e.as_str());
                        self.finish_err(msg)
                    },
                }
            },
            InstState::DownloadArchive => {
                let (spawned, spawn_error, exit_ok) = match ev {
                    InstEvent::Proc { spawned, spawn_error, exit_ok } => (
                        spawned,
                        spawn_error,
                        exit_ok,
                    ),
                    _ => vstd::pervasive::unreached(),
                };
                if !spawned {
                    let mut msg = String::from_str("Failed to download: ");
                    msg.append(spawn_error.as_str());
                    self.finish_err(msg)
                } else if !exit_ok {
                    self.finish_ok(
                        false,
                        String::from_str("Failed to download whisper.cpp. Please install manually."),
                        None,
                    )
                } else {
                    let archive = join_path(self.dir.as_str(), "whisper.zip");
                    let dest = self.dir.clone();
                    self.state = InstState::Extract;
                    InstAction::RunExtract { archive, dest }
                }
            },
            InstState::Extract => {
                let (spawned, spawn_error, exit_ok) = match ev {
                    InstEvent::Proc { spawned, spawn_error, exit_ok } => (
                        spawned,
                        spawn_error,
                        exit_ok,
                    ),
                    _ => vstd::pervasive::unreached(),
                };
                if !spawned {
                    let mut msg = String::from_str("Failed to extract: ");
                    msg.append(spawn_error.as_str());
                    self.finish_err(msg)
                } else if !exit_ok {
                    self.finish_ok(
                        false,
                        String::from_str("Failed to extract whisper.cpp. Please install manually."),
                        None,
                    )
                } else {
                    self.enter_model_scan(0)
                }
            },
            InstState::CheckModel { i } => {
                let hit = match ev {
                    InstEvent::Exists(b) => b,
                    _ => vstd::pervasive::unreached(),
                };
                if hit {
                    self.enter_model_scan(i + 1)
                } else {
                    let name = inst_model_name_exec(i);
                    let url = model_url(name);
                    let outfile = join_path(self.dir.as_str(), name);
                    self.state = InstState::FetchModel { i };
                    InstAction::RunDownload { url, outfile }
                }
            },
            InstState::FetchModel { i } => {
                let (spawned, spawn_error, _exit_ok) = match ev {
                    InstEvent::Proc { spawned, spawn_error, exit_ok } => (
                        spawned,
                        spawn_error,
                        exit_ok,
                    ),
                    _ => vstd::pervasive::unreached(),
                };
                if !spawned {
                    let name = inst_model_name_exec(i);
                    let mut msg = String::from_str("Failed to download model ");
                    msg.append(name);
                    msg.append(": ");
                    msg.append(spawn_error.as_str());
                    self.finish_err(msg)
                } else {
                    self.enter_model_scan(i + 1)
                }
            },
            InstState::CheckBinary { i } => {
                let hit = match ev {
                    InstEvent::Exists(b) => b,
                    _ => vstd::pervasive::unreached(),
                };
                if hit {
                    let name = if i == 0 {
                        "whisper.exe"
                    } else {
                        "main.exe"
                    };
                    let found = join_path(self.dir.as_str(), name);
                    let mut msg = String::from_str("Whisper.cpp installed to ");
                    msg.append(self.dir.as_str());
                    self.finish_ok(true, msg, Some(found))
                } else {
                    self.enter_binary_scan(i + 1)
                }
            },
            InstState::RunBrew => {
                let (spawned, _spawn_error, exit_ok) = match ev {
                    InstEvent::Proc { spawned, spawn_error, exit_ok } => (
                        spawned,
                        spawn_error,
                        exit_ok,
                    ),
                    _ => vstd::pervasive::unreached(),
                };
                if spawned && exit_ok {
                    self.finish_ok(
                        true,
                        String::from_str("Whisper.cpp installed via Homebrew"),
                        Some(String::from_str("whisper")),
                    )
                } else {
                    self.finish_ok(
                        false,
                        String::from_str(
                            "Failed to install via Homebrew. Please run: brew install whisper-cpp",
                        ),
                        None,
                    )
                }
            },
            InstState::Finished => vstd::pervasive::unreached(),
        }
    }

    fn enter_route(&mut self) -> (a: InstAction)
        requires
            inst_wf(*old(self)),
            !(old(self).state is Finished),
        ensures
            final(self).platform == old(self).platform,
            final(self).dir@ == old(self).dir@,
            inst_wf(*final(self)),
            inst_route_entry(*old(self), *final(self), a),
    {
        match self.platform {
            Platform::Windows => {
                let url = String::from_str(
                    "https://github.com/ggerganov/whisper.cpp/releases/download/v1.5.4/whisper-bin-x64.zip",
                );
                let outfile = join_path(self.dir.as_str(), "whisper.zip");
                self.state = InstState::DownloadArchive;
                InstAction::RunDownload { url, outfile }
            },
            Platform::MacOs => {
                self.state = InstState::RunBrew;
                InstAction::RunBrew
            },
            Platform::Linux => self.finish_ok(
                false,
                String::from_str(
                    "Please install whisper.cpp manually: https://github.com/ggerganov/whisper.cpp",
                ),
                None,
            ),
            Platform::Other => self.finish_ok(
                false,
                String::from_str("Unsupported platform"),
                None,
            ),
        }
    }

    fn enter_model_scan(&mut self, i: usize) -> (a: InstAction)
        requires
            inst_wf(*old(self)),
            !(old(self).state is Finished),
            i <= 2,
        ensures
            final(self).platform == old(self).platform,
            final(self).dir@ == old(self).dir@,
            inst_wf(*final(self)),
            inst_model_scan(*old(self), *final(self), a, i as int),
    {
        if i < 2 {
            let name = inst_model_name_exec(i);
            let p = join_path(self.dir.as_str(), name);
            self.state = InstState::CheckModel { i };
            InstAction::Stat(p)
        } else {
            self.enter_binary_scan(0)
        }
    }

    fn enter_binary_scan(&mut self, i: usize) -> (a: InstAction)
        requires
            inst_wf(*old(self)),
            !(old(self).state is Finished),
            i <= 2,
        ensures
            final(self).platform == old(self).platform,
            final(self).dir@ == old(self).dir@,
            inst_wf(*final(self)),
            inst_binary_scan(*old(self), *final(self), a, i as int),
    {
        if i == 0 {
            let p = join_path(self.dir.as_str(), "whisper.exe");
            self.state = InstState::CheckBinary { i: 0 };
            InstAction::Stat(p)
        } else if i == 1 {
            let p = join_path(self.dir.as_str(), "main.exe");
            self.state = InstState::CheckBinary { i: 1 };
            InstAction::Stat(p)
        } else {
            let mut msg = String::from_str("Whisper.cpp installed to ");
            msg.append(self.dir.as_str());
            let p = self.dir.clone();
            self.finish_ok(true, msg, Some(p))
        }
    }

    fn finish_err(&mut self, msg: String) -> (a: InstAction)
        requires
            inst_wf(*old(self)),
        ensures
            final(self).platform == old(self).platform,
            final(self).dir@ == old(self).dir@,
            inst_wf(*final(self)),
            inst_fail(*final(self), a, msg@),
    {
        let announce = msg.clone();
        self.result = Some(Err(msg));
        self.state = InstState::Finished;
        InstAction::Done(Err(announce))
    }

    fn finish_ok(&mut self, success: bool, message: String, path: Option<String>) -> (a:
        InstAction)
        requires
            inst_wf(*old(self)),
        ensures
            final(self).platform == old(self).platform,
            final(self).dir@ == old(self).dir@,
            inst_wf(*final(self)),
            inst_done(
                *final(self),
                a,
                success,
                message@,
                match path {
                    Some(p) => Some(p@),
                    None => None,
                },
            ),
    {
        let announce = InstallResult {
            success,
            message: message.clone(),
            path: match &path {
                Some(p) => Some(p.clone()),
                None => None,
            },
        };
        self.result = Some(Ok(InstallResult { success, message, path }));
        self.state = InstState::Finished;
        InstAction::Done(Ok(announce))
    }
}

} // verus!
