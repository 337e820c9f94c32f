//! Model acquisition: a streaming download into a temporary file with
//! bounded-rate progress reporting and an atomic rename into the final model
//! name. The machine decides every step; the caller performs the directory,
//! network and file work it requests and reports each outcome as an event.

use vstd::prelude::*;
use crate::paths::{install_dir, install_dir_spec, join_path, join_path_spec};
use crate::registry::{
    descriptor_matches, model_registry, model_url, model_url_spec, reg_file, reg_id,
    reg_size_bytes, registry_len,
};
use crate::text::str_eq;

verus! {

/// Status of one progress record.
#[derive(Clone, Copy, Debug, PartialEq, Eq, Structural)]
pub enum DownloadStatus {
    /// Emitted once before the transfer starts.
    Starting,
    /// Emitted at bounded intervals while chunks arrive.
    Downloading,
    /// Emitted once after the artifact is installed.
    Completed,
}

/// One transient progress record pushed to the observer.
pub struct DownloadProgress {
    pub model_id: String,
    /// Bytes written so far (for the completed record, at least the total).
    pub downloaded: u64,
    /// The denominator: the reported content length, or the descriptor's
    /// statically known size when the server reports none.
    pub total: u64,
    /// Completion in hundredths of a percent; 10000 is 100%. May exceed
    /// 10000 when the server's length and the actual stream disagree.
    pub percent_hundredths: u64,
    pub status: DownloadStatus,
}

/// Outcome of one acquisition.
pub struct DownloadResult {
    pub success: bool,
    pub message: String,
    pub model_path: Option<String>,
}

/// Completion in hundredths of a percent, saturating; zero denominator gives
/// zero.
pub open spec fn percent_hundredths_spec(downloaded: u64, total: u64) -> u64 {
    if total == 0 {
        0u64
    } else if (downloaded as int) * 10000 / (total as int) > u64::MAX {
        u64::MAX
    } else {
        ((downloaded as int) * 10000 / (total as int)) as u64
    }
}

/// Computes completion in hundredths of a percent.
pub fn percent_hundredths(downloaded: u64, total: u64) -> (r: u64)
    ensures
        r == percent_hundredths_spec(downloaded, total),
{
    if total == 0 {
        0
    } else {
        let p: u128 = (downloaded as u128) * 10000 / (total as u128);
        if p > u64::MAX as u128 {
            u64::MAX
        } else {
            p as u64
        }
    }
}

/// The registry entry whose identifier is `id`, or a negative value when
/// there is none.
pub open spec fn reg_match(id: Seq<char>) -> int {
    if id == reg_id(0) { 0 }
    else if id == reg_id(1) { 1 }
    else if id == reg_id(2) { 2 }
    else if id == reg_id(3) { 3 }
    else if id == reg_id(4) { 4 }
    else if id == reg_id(5) { 5 }
    else if id == reg_id(6) { 6 }
    else if id == reg_id(7) { 7 }
    else if id == reg_id(8) { 8 }
    else { -1 }
}

/// The home directory view an acquisition works with: the given one, or
/// empty when none is known.
pub open spec fn home_view(home: Option<&str>) -> Seq<char> {
    match home {
        Some(h) => h@,
        None => Seq::<char>::empty(),
    }
}

/// The constant identity of one acquisition.
pub struct AcqConfig {
    pub model_id: String,
    /// The installation directory.
    pub dir: String,
    /// The final installed path of the artifact.
    pub final_path: String,
    /// The temporary download target; always the final path with a
    /// distinguishing suffix.
    pub temp_path: String,
    /// The canonical source URL.
    pub url: String,
    /// The descriptor's statically known byte size.
    pub fallback_total: u64,
}

/// Where the acquisition stands: what outcome it awaits.
pub enum AcqState {
    /// Awaiting the creation of the installation directory.
    EnsureDir,
    /// Awaiting the observer's take of the starting record.
    EmitStart,
    /// Awaiting the response to the streaming request.
    Request,
    /// Awaiting the creation of the temporary file.
    CreateTemp,
    /// Awaiting the next chunk, the end of the stream, or a failure.
    Stream,
    /// Awaiting the observer's take of a downloading record.
    StreamEmit,
    /// Awaiting the flush of the temporary file.
    Flush,
    /// Awaiting the rename of the temporary file to the final name.
    Rename,
    /// Awaiting the observer's take of the completed record.
    EmitDone,
    /// Cancelled: awaiting the removal of the partial temporary file.
    CancelCleanup,
    /// The acquisition is decided.
    Finished { result: Result<DownloadResult, String> },
}

/// What the machine asks the caller to do next.
pub enum AcqAction {
    /// Create this directory and every missing parent.
    CreateDirAll(String),
    /// Issue a streaming request for this URL.
    HttpGet(String),
    /// Create this file, empty.
    CreateFile(String),
    /// Await the next chunk of the stream and append it to the temporary
    /// file.
    ReadChunk,
    /// Push this record to the progress observer.
    Emit(DownloadProgress),
    /// Flush this file.
    FlushFile(String),
    /// Atomically rename `from` to `to`.
    RenameFile { from: String, to: String },
    /// Delete this file, best effort.
    DeleteFile(String),
    /// The acquisition is decided.
    Done(Result<DownloadResult, String>),
}

/// The outcome the caller reports for the last requested action.
pub enum AcqEvent {
    /// Directory creation: `None` on success, otherwise the error.
    Dir(Option<String>),
    /// The observer took the emitted record.
    Emitted,
    /// The response: whether the request went out, its error otherwise;
    /// whether the status was a success, the status text otherwise; and the
    /// reported content length.
    Response {
        ok: bool,
        error: String,
        status_ok: bool,
        status: String,
        content_length: Option<u64>,
    },
    /// Temporary file creation: `None` on success.
    File(Option<String>),
    /// One chunk of `len` bytes arrived; `write_error` reports the append to
    /// the temporary file; `now_ms` is the caller's clock.
    Chunk { len: u64, write_error: Option<String>, now_ms: u64 },
    /// The stream ended.
    StreamEnd,
    /// The stream failed.
    StreamError(String),
    /// The flush's outcome.
    Flush(Option<String>),
    /// The rename's outcome.
    Rename(Option<String>),
    /// The caller raised its cancellation signal.
    Cancel,
    /// The removal of the temporary file was attempted (best effort).
    Removed,
}

/// One acquisition in progress. `emitted` records the `downloaded` value of
/// every progress record pushed so far.
pub struct Acquisition {
    pub cfg: AcqConfig,
    /// The progress denominator.
    pub total: u64,
    /// Bytes appended to the temporary file so far.
    pub downloaded: u64,
    /// The caller's clock at the last downloading record.
    pub last_emit_ms: u64,
    pub state: AcqState,
    pub emitted: Ghost<Seq<u64>>,
}

/// `h` is non-decreasing.
pub open spec fn nondecreasing(h: Seq<u64>) -> bool {
    forall|i: int, j: int| 0 <= i <= j < h.len() ==> h[i] <= h[j]
}

/// Every element of `h` is at most `d`.
pub open spec fn emitted_bounded(h: Seq<u64>, d: u64) -> bool {
    forall|i: int| 0 <= i < h.len() ==> h[i] <= d
}

/// The machine's data is internally consistent: the emitted history is
/// non-decreasing and, until completion, bounded by the byte count; the
/// temporary name is the final name with the distinguishing suffix.
pub open spec fn acq_wf(c: Acquisition) -> bool {
    &&& nondecreasing(c.emitted@)
    &&& !(c.state is EmitDone || c.state is Finished) ==> emitted_bounded(c.emitted@, c.downloaded)
    &&& !(c.state is Finished) ==> c.cfg.temp_path@ == c.cfg.final_path@ + ".tmp"@
    &&& c.state is EnsureDir ==> c.emitted@ == Seq::<u64>::empty() && c.downloaded == 0
}

/// The event kind answers the pending request; the cancellation signal is
/// accepted at any point before the cleanup and the decision.
pub open spec fn acq_event_fits(c: Acquisition, ev: AcqEvent) -> bool {
    match c.state {
        AcqState::EnsureDir => ev is Dir || ev is Cancel,
        AcqState::EmitStart => ev is Emitted || ev is Cancel,
        AcqState::Request => ev is Response || ev is Cancel,
        AcqState::CreateTemp => ev is File || ev is Cancel,
        AcqState::Stream => ev is Chunk || ev is StreamEnd || ev is StreamError || ev is Cancel,
        AcqState::StreamEmit => ev is Emitted || ev is Cancel,
        AcqState::Flush => ev is Flush || ev is Cancel,
        AcqState::Rename => ev is Rename || ev is Cancel,
        AcqState::EmitDone => ev is Emitted || ev is Cancel,
        AcqState::CancelCleanup => ev is Removed,
        AcqState::Finished { .. } => false,
    }
}

/// The constant identity is kept.
pub open spec fn acq_same_config(s: Acquisition, t: Acquisition) -> bool {
    t.cfg == s.cfg
}

/// Counters and history are kept.
pub open spec fn acq_keep_counters(s: Acquisition, t: Acquisition) -> bool {
    &&& t.total == s.total
    &&& t.downloaded == s.downloaded
    &&& t.last_emit_ms == s.last_emit_ms
    &&& t.emitted@ == s.emitted@
}

/// The step decided failure with message `msg`: counters kept, nothing
/// emitted, the decision announced.
pub open spec fn acq_fail_spec(s: Acquisition, t: Acquisition, a: AcqAction, msg: Seq<char>) -> bool {
    &&& acq_keep_counters(s, t)
    &&& t.state matches AcqState::Finished { result: Err(e) } && e@ == msg
    &&& a matches AcqAction::Done(Err(e2)) && e2@ == msg
}

/// The downloading record due after a chunk.
pub open spec fn chunk_record(s: Acquisition, d2: u64, p: DownloadProgress) -> bool {
    &&& p.model_id@ == s.cfg.model_id@
    &&& p.downloaded == d2
    &&& p.total == s.total
    &&& p.percent_hundredths == percent_hundredths_spec(d2, s.total)
    &&& p.status is Downloading
}

/// The states in which a partial temporary file may exist and must be
/// removed on cancellation.
pub open spec fn acq_temp_may_exist(st: AcqState) -> bool {
    ||| st is CreateTemp
    ||| st is Stream
    ||| st is StreamEmit
    ||| st is Flush
    ||| st is Rename
}

/// How a cancellation decides the acquisition: the partial temporary file is
/// removed first where one may exist; the outcome is the distinct cancelled
/// message.
pub open spec fn acq_cancel_spec(s: Acquisition, t: Acquisition, a: AcqAction) -> bool {
    if acq_temp_may_exist(s.state) {
        &&& acq_keep_counters(s, t)
        &&& t.state is CancelCleanup
        &&& a matches AcqAction::DeleteFile(p) && p@ == s.cfg.temp_path@
    } else {
        acq_fail_spec(s, t, a, "Download cancelled"@)
    }
}

/// How one reported outcome advances the acquisition, and what it requests
/// next.
pub open spec fn acq_step_spec(s: Acquisition, ev: AcqEvent, t: Acquisition, a: AcqAction) -> bool {
    &&& acq_same_config(s, t)
    &&& if ev is Cancel {
        acq_cancel_spec(s, t, a)
    } else {
        acq_routine_step(s, ev, t, a)
    }
}

/// The acquisition's ordinary transitions, for every event but the
/// cancellation signal.
pub open spec fn acq_routine_step(s: Acquisition, ev: AcqEvent, t: Acquisition, a: AcqAction) -> bool {
    match s.state {
        AcqState::EnsureDir => match ev {
            AcqEvent::Dir(None) => {
                &&& t.total == s.total
                &&& t.downloaded == 0
                &&& t.last_emit_ms == s.last_emit_ms
                &&& t.emitted@ == s.emitted@.push(0)
                &&& t.state is EmitStart
                &&& (a matches AcqAction::Emit(p) && p.model_id@ == s.cfg.model_id@
                    && p.downloaded == 0 && p.total == s.cfg.fallback_total
                    && p.percent_hundredths == 0 && p.status is Starting)
            },
            AcqEvent::Dir(Some(e)) => acq_fail_spec(
                s,
                t,
                a,
                "Failed to create directory: "@ + e@,
            ),
            _ => false,
        },
        AcqState::EmitStart => match ev {
            AcqEvent::Emitted => {
                &&& acq_keep_counters(s, t)
                &&& t.state is Request
                &&& (a matches AcqAction::HttpGet(u) && u@ == s.cfg.url@)
            },
            _ => false,
        },
        AcqState::Request => match ev {
            AcqEvent::Response { ok, error, status_ok, status, content_length } => {
                if !ok {
                    acq_fail_spec(s, t, a, "Failed to start download: "@ + error@)
                } else if !status_ok {
                    acq_fail_spec(s, t, a, "Download failed with status: "@ + status@)
                } else {
                    &&& t.total == (match content_length {
                        Some(n) => n,
                        None => s.cfg.fallback_total,
                    })
                    &&& t.downloaded == s.downloaded
                    &&& t.last_emit_ms == s.last_emit_ms
                    &&& t.emitted@ == s.emitted@
                    &&& t.state is CreateTemp
                    &&& (a matches AcqAction::CreateFile(p) && p@ == s.cfg.temp_path@)
                }
            },
            _ => false,
        },
        AcqState::CreateTemp => match ev {
            AcqEvent::File(None) => {
                &&& acq_keep_counters(s, t)
                &&& t.state is Stream
                &&& a is ReadChunk
            },
            AcqEvent::File(Some(e)) => acq_fail_spec(s, t, a, "Failed to create file: "@ + e@),
            _ => false,
        },
        AcqState::Stream => match ev {
            AcqEvent::Chunk { len, write_error: None, now_ms } => {
                let d2: u64 = if s.downloaded + len > u64::MAX {
                    u64::MAX
                } else {
                    (s.downloaded + len) as u64
                };
                if now_ms >= s.last_emit_ms + 100 {
                    &&& t.total == s.total
                    &&& t.downloaded == d2
                    &&& t.last_emit_ms == now_ms
                    &&& t.emitted@ == s.emitted@.push(d2)
                    &&& t.state is StreamEmit
                    &&& (a matches AcqAction::Emit(p) && chunk_record(s, d2, p))
                } else {
                    &&& t.total == s.total
                    &&& t.downloaded == d2
                    &&& t.last_emit_ms == s.last_emit_ms
                    &&& t.emitted@ == s.emitted@
                    &&& t.state is Stream
                    &&& a is ReadChunk
                }
            },
            AcqEvent::Chunk { write_error: Some(e), .. } => acq_fail_spec(
                s,
                t,
                a,
                "Failed to write to file: "@ + e@,
            ),
            AcqEvent::StreamEnd => {
                &&& acq_keep_counters(s, t)
                &&& t.state is Flush
                &&& (a matches AcqAction::FlushFile(p) && p@ == s.cfg.temp_path@)
            },
            AcqEvent::StreamError(e) => acq_fail_spec(s, t, a, "Download error: "@ + e@),
            _ => false,
        },
        AcqState::StreamEmit => match ev {
            AcqEvent::Emitted => {
                &&& acq_keep_counters(s, t)
                &&& t.state is Stream
                &&& a is ReadChunk
            },
            _ => false,
        },
        AcqState::Flush => match ev {
            AcqEvent::Flush(None) => {
                &&& acq_keep_counters(s, t)
                &&& t.state is Rename
                &&& (a matches AcqAction::RenameFile { from, to } && from@ == s.cfg.temp_path@
                    && to@ == s.cfg.final_path@)
            },
            AcqEvent::Flush(Some(e)) => acq_fail_spec(s, t, a, "Failed to flush file: "@ + e@),
            _ => false,
        },
        AcqState::Rename => match ev {
            AcqEvent::Rename(None) => {
                let dfin: u64 = if s.downloaded >= s.total {
                    s.downloaded
                } else {
                    s.total
                };
                &&& t.total == s.total
                &&& t.downloaded == s.downloaded
                &&& t.last_emit_ms == s.last_emit_ms
                &&& t.emitted@ == s.emitted@.push(dfin)
                &&& t.state is EmitDone
                &&& (a matches AcqAction::Emit(p) && p.model_id@ == s.cfg.model_id@
                    && p.downloaded == dfin && p.total == s.total && p.percent_hundredths == 10000
                    && p.status is Completed)
            },
            AcqEvent::Rename(Some(e)) => acq_fail_spec(
                s,
                t,
                a,
                "Failed to move downloaded file: "@ + e@,
            ),
            _ => false,
        },
        AcqState::EmitDone => match ev {
            AcqEvent::Emitted => {
                &&& acq_keep_counters(s, t)
                &&& (t.state matches AcqState::Finished { result: Ok(d) } && acq_success_result(
                    s,
                    d,
                ))
                &&& (a matches AcqAction::Done(Ok(d2)) && acq_success_result(s, d2))
            },
            _ => false,
        },
        AcqState::CancelCleanup => match ev {
            AcqEvent::Removed => acq_fail_spec(s, t, a, "Download cancelled"@),
            _ => false,
        },
        AcqState::Finished { .. } => false,
    }
}

/// The successful outcome: the installed path and a message naming the
/// model.
pub open spec fn acq_success_result(s: Acquisition, d: DownloadResult) -> bool {
    &&& d.success
    &&& d.message@ == "Model '"@ + s.cfg.model_id@ + "' downloaded successfully"@
    &&& d.model_path matches Some(p) && p@ == s.cfg.final_path@
}

impl Acquisition {
    /// Begins an acquisition for the model whose identifier is `model_id`.
    ///
    /// An unknown identifier, and a missing home directory for a model that
    /// is not yet installed, decide at once. An installed model decides at
    /// once with its installed path: nothing further, in particular no
    /// network request, is asked of the caller. Otherwise the first request
    /// is the creation of the installation directory.
    pub fn download_whisper_model(model_id: &str, home: Option<&str>, installed: bool) -> (r: (
        Acquisition,
        AcqAction,
    ))
        ensures
            acq_wf(r.0),
            ({
                let idx = reg_match(model_id@);
                let h = home_view(home);
                &&& idx < 0 ==> acq_decided(
                    r.0,
                    r.1,
                    outcome_failure("Model '"@ + model_id@ + "' not found"@),
                )
                &&& idx >= 0 && installed ==> acq_decided(
                    r.0,
                    r.1,
                    outcome_installed(join_path_spec(install_dir_spec(h), reg_file(idx))),
                )
                &&& idx >= 0 && !installed && home is None ==> acq_decided(
                    r.0,
                    r.1,
                    outcome_failure("Could not find home directory"@),
                )
                &&& idx >= 0 && !installed && home is Some ==> ({
                    &&& r.0.state is EnsureDir
                    &&& r.0.cfg.model_id@ == model_id@
                    &&& r.0.cfg.dir@ == install_dir_spec(h)
                    &&& r.0.cfg.final_path@ == join_path_spec(install_dir_spec(h), reg_file(idx))
                    &&& r.0.cfg.temp_path@ == r.0.cfg.final_path@ + ".tmp"@
                    &&& r.0.cfg.url@ == model_url_spec(reg_file(idx))
                    &&& r.0.cfg.fallback_total == reg_size_bytes(idx)
                    &&& r.0.total == reg_size_bytes(idx)
                    &&& r.0.downloaded == 0
                    &&& r.0.last_emit_ms == 0
                    &&& r.0.emitted@ == Seq::<u64>::empty()
                    &&& (r.1 matches AcqAction::CreateDirAll(d) && d@ == install_dir_spec(h))
                })
            }),
    {
        let descriptors = model_registry();
        let mut idx: usize = 0;
        let mut found = false;
        while idx < descriptors.len() && !found
            invariant
                descriptors@.len() == registry_len(),
                forall|k: int| 0 <= k < descriptors@.len() ==> descriptor_matches(
                    #[trigger] descriptors@[k],
                    k,
                ),
                idx <= descriptors@.len(),
                !found ==> forall|k: int| 0 <= k < idx ==> model_id@ != reg_id(k),
                found ==> idx < descriptors@.len() && model_id@ == reg_id(idx as int)
                    && (forall|k: int| 0 <= k < idx ==> model_id@ != reg_id(k)),
            decreases descriptors@.len() - idx, (if found { 0int } else { 1int }),
    {
            if str_eq(descriptors[idx].id.as_str(), model_id) {
                found = true;
            } else {
                idx += 1;
            }
        }
        if !found {
            assert(reg_match(model_id@) < 0);
            let mut msg = String::from_str("Model '");
            msg.append(model_id);
            msg.append("' not found");
            return acq_finished(model_id, home, 0, Err(msg));
        }
        assert(reg_match(model_id@) == idx as int);
        let size = descriptors[idx].size_bytes;
        let file = descriptors[idx].file_name.as_str();
        let home_str = match home {
            Some(h) => h,
            None => "",
        };
        proof {
            reveal_strlit("");
            assert(""@ =~= Seq::<char>::empty());
        }
        let dir = install_dir(home_str);
        let final_path = join_path(dir.as_str(), file);
        if installed {
            return acq_finished(
                model_id,
                home,
                size,
                Ok(
                    DownloadResult {
                        success: true,
                        message: String::from_str("Model already installed"),
                        model_path: Some(final_path),
                    },
                ),
            );
        }
        if home.is_none() {
            return acq_finished(
                model_id,
                home,
                size,
                Err(String::from_str("Could not find home directory")),
            );
        }
        let temp_path = final_path.clone().concat(".tmp");
        let url = model_url(file);
        let action = AcqAction::CreateDirAll(dir.clone());
        let c = Acquisition {
            cfg: AcqConfig {
                model_id: String::from_str(model_id),
                dir,
                final_path,
                temp_path,
                url,
                fallback_total: size,
            },
            total: size,
            downloaded: 0,
            last_emit_ms: 0,
            state: AcqState::EnsureDir,
            emitted: Ghost(Seq::<u64>::empty()),
        };
        (c, action)
    }

    /// Advances the acquisition by one reported outcome and returns the next
    /// request, or the decision.
    pub fn step(self, ev: AcqEvent) -> (r: (Acquisition, AcqAction))
        requires
            acq_wf(self),
            acq_event_fits(self, ev),
        ensures
            acq_wf(r.0),
            acq_step_spec(self, ev, r.0, r.1),
    {
        let Acquisition { cfg, total, downloaded, last_emit_ms, state, emitted } = self;
        if let AcqEvent::Cancel = &ev {
            return match state {
                AcqState::CreateTemp | AcqState::Stream | AcqState::StreamEmit | AcqState::Flush
                | AcqState::Rename => {
                    let p = cfg.temp_path.clone();
                    let c = Acquisition {
                        cfg,
                        total,
                        downloaded,
                        last_emit_ms,
                        state: AcqState::CancelCleanup,
                        emitted,
                    };
                    (c, AcqAction::DeleteFile(p))
                },
                _ => acq_cancelled(cfg, total, downloaded, last_emit_ms, emitted),
            };
        }
        match state {
            AcqState::EnsureDir => match ev {
                AcqEvent::Dir(None) => {
                    let record = DownloadProgress {
                        model_id: cfg.model_id.clone(),
                        downloaded: 0,
                        total: cfg.fallback_total,
                        percent_hundredths: 0,
                        status: DownloadStatus::Starting,
                    };
                    let c = Acquisition {
                        cfg,
                        total,
                        downloaded: 0,
                        last_emit_ms,
                        state: AcqState::EmitStart,
                        emitted: Ghost(emitted@.push(0)),
                    };
                    (c, AcqAction::Emit(record))
                },
                AcqEvent::Dir(Some(e)) => acq_fail(
                    cfg,
                    total,
                    downloaded,
                    last_emit_ms,
                    emitted,
                    "Failed to create directory: ",
                    e.as_str(),
                ),
                _ => vstd::pervasive::unreached(),
            },
            AcqState::EmitStart => {
                let u = cfg.url.clone();
                let c = Acquisition {
                    cfg,
                    total,
                    downloaded,
                    last_emit_ms,
                    state: AcqState::Request,
                    emitted,
                };
                (c, AcqAction::HttpGet(u))
            },
            AcqState::Request => match ev {
                AcqEvent::Response { ok, error, status_ok, status, content_length } => {
                    if !ok {
                        acq_fail(
                            cfg,
                            total,
                            downloaded,
                            last_emit_ms,
                            emitted,
                            "Failed to start download: ",
                            error.as_str(),
                        )
                    } else if !status_ok {
                        acq_fail(
                            cfg,
                            total,
                            downloaded,
                            last_emit_ms,
                            emitted,
                            "Download failed with status: ",
                            status.as_str(),
                        )
                    } else {
                        let new_total = match content_length {
                            Some(n) => n,
                            None => cfg.fallback_total,
                        };
                        let p = cfg.temp_path.clone();
                        let c = Acquisition {
                            cfg,
                            total: new_total,
                            downloaded,
                            last_emit_ms,
                            state: AcqState::CreateTemp,
                            emitted,
                        };
                        (c, AcqAction::CreateFile(p))
                    }
                },
                _ => vstd::pervasive::unreached(),
            },
            AcqState::CreateTemp => match ev {
                AcqEvent::File(None) => {
                    let c = Acquisition {
                        cfg,
                        total,
                        downloaded,
                        last_emit_ms,
                        state: AcqState::Stream,
                        emitted,
                    };
                    (c, AcqAction::ReadChunk)
                },
                AcqEvent::File(Some(e)) => acq_fail(
                    cfg,
                    total,
                    downloaded,
                    last_emit_ms,
                    emitted,
                    "Failed to create file: ",
                    e.as_str(),
                ),
                _ => vstd::pervasive::unreached(),
            },
            AcqState::Stream => match ev {
                AcqEvent::Chunk { len, write_error: None, now_ms } => {
                    let d2 = if downloaded <= u64::MAX - len {
                        downloaded + len
                    } else {
                        u64::MAX
                    };
                    let due = now_ms >= last_emit_ms && now_ms - last_emit_ms >= 100;
                    if due {
                        let record = DownloadProgress {
                            model_id: cfg.model_id.clone(),
                            downloaded: d2,
                            total,
                            percent_hundredths: percent_hundredths(d2, total),
                            status: DownloadStatus::Downloading,
                        };
                        let c = Acquisition {
                            cfg,
                            total,
                            downloaded: d2,
                            last_emit_ms: now_ms,
                            state: AcqState::StreamEmit,
                            emitted: Ghost(emitted@.push(d2)),
                        };
                        (c, AcqAction::Emit(record))
                    } else {
                        let c = Acquisition {
                            cfg,
                            total,
                            downloaded: d2,
                            last_emit_ms,
                            state: AcqState::Stream,
                            emitted,
                        };
                        (c, AcqAction::ReadChunk)
                    }
                },
                AcqEvent::Chunk { write_error: Some(e), .. } => acq_fail(
                    cfg,
                    total,
                    downloaded,
                    last_emit_ms,
                    emitted,
                    "Failed to write to file: ",
                    e.as_str(),
                ),
                AcqEvent::StreamEnd => {
                    let p = cfg.temp_path.clone();
                    let c = Acquisition {
                        cfg,
                        total,
                        downloaded,
                        last_emit_ms,
                        state: AcqState::Flush,
                        emitted,
                    };
                    (c, AcqAction::FlushFile(p))
                },
                AcqEvent::StreamError(e) => acq_fail(
                    cfg,
                    total,
                    downloaded,
                    last_emit_ms,
                    emitted,
                    "Download error: ",
                    e.as_str(),
                ),
                _ => vstd::pervasive::unreached(),
            },
            AcqState::StreamEmit => {
                let c = Acquisition {
                    cfg,
                    total,
                    downloaded,
                    last_emit_ms,
                    state: AcqState::Stream,
                    emitted,
                };
                (c, AcqAction::ReadChunk)
            },
            AcqState::Flush => match ev {
                AcqEvent::Flush(None) => {
                    let from = cfg.temp_path.clone();
                    let to = cfg.final_path.clone();
                    let c = Acquisition {
                        cfg,
                        total,
                        downloaded,
                        last_emit_ms,
                        state: AcqState::Rename,
                        emitted,
                    };
                    (c, AcqAction::RenameFile { from, to })
                },
                AcqEvent::Flush(Some(e)) => acq_fail(
                    cfg,
                    total,
                    downloaded,
                    last_emit_ms,
                    emitted,
                    "Failed to flush file: ",
                    e.as_str(),
                ),
                _ => vstd::pervasive::unreached(),
            },
            AcqState::Rename => match ev {
                AcqEvent::Rename(None) => {
                    let dfin = if downloaded >= total {
                        downloaded
                    } else {
                        total
                    };
                    let record = DownloadProgress {
                        model_id: cfg.model_id.clone(),
                        downloaded: dfin,
                        total,
                        percent_hundredths: 10000,
                        status: DownloadStatus::Completed,
                    };
                    let c = Acquisition {
                        cfg,
                        total,
                        downloaded,
                        last_emit_ms,
                        state: AcqState::EmitDone,
                        emitted: Ghost(emitted@.push(dfin)),
                    };
                    (c, AcqAction::Emit(record))
                },
                AcqEvent::Rename(Some(e)) => acq_fail(
                    cfg,
                    total,
                    downloaded,
                    last_emit_ms,
                    emitted,
                    "Failed to move downloaded file: ",
                    e.as_str(),
                ),
                _ => vstd::pervasive::unreached(),
            },
            AcqState::EmitDone => {
                let mut msg = String::from_str("Model '");
                msg.append(cfg.model_id.as_str());
                msg.append("' downloaded successfully");
                let path = cfg.final_path.clone();
                let result_in = Ok(
                    DownloadResult { success: true, message: msg.clone(), model_path: Some(
                        cfg.final_path.clone(),
                    ) },
                );
                let c = Acquisition {
                    cfg,
                    total,
                    downloaded,
                    last_emit_ms,
                    state: AcqState::Finished { result: result_in },
                    emitted,
                };
                (
                    c,
                    AcqAction::Done(
                        Ok(DownloadResult { success: true, message: msg, model_path: Some(path) }),
                    ),
                )
            },
            AcqState::CancelCleanup => acq_cancelled(cfg, total, downloaded, last_emit_ms, emitted),
            AcqState::Finished { .. } => vstd::pervasive::unreached(),
        }
    }
}

/// A decided machine announcing outcome `out` (compared by views).
pub open spec fn acq_decided(c: Acquisition, a: AcqAction, out: OutcomeView) -> bool {
    match out {
        OutcomeView::Failure { msg } => {
            &&& c.state matches AcqState::Finished { result: Err(e) } && e@ == msg
            &&& a matches AcqAction::Done(Err(e2)) && e2@ == msg
        },
        OutcomeView::AlreadyInstalled { path } => {
            &&& c.state matches AcqState::Finished { result: Ok(d) } && installed_result(d, path)
            &&& a matches AcqAction::Done(Ok(d2)) && installed_result(d2, path)
        },
    }
}

/// The outcome of an acquisition, by views: a failure message, or the path
/// of an already-installed artifact.
pub enum OutcomeView {
    Failure { msg: Seq<char> },
    AlreadyInstalled { path: Seq<char> },
}

/// Shorthand for a failure outcome.
pub open spec fn outcome_failure(msg: Seq<char>) -> OutcomeView {
    OutcomeView::Failure { msg }
}

/// Shorthand for an already-installed outcome.
pub open spec fn outcome_installed(path: Seq<char>) -> OutcomeView {
    OutcomeView::AlreadyInstalled { path }
}

/// A successful result reporting an already-installed artifact at `path`.
pub open spec fn installed_result(d: DownloadResult, path: Seq<char>) -> bool {
    &&& d.success
    &&& d.message@ == "Model already installed"@
    &&& d.model_path matches Some(p) && p@ == path
}

fn acq_finished(model_id: &str, home: Option<&str>, size: u64, result: Result<
    DownloadResult,
    String,
>) -> (r: (Acquisition, AcqAction))
    ensures
        acq_wf(r.0),
        (result matches Err(e) ==> acq_decided(r.0, r.1, outcome_failure(e@))),
        (result matches Ok(d) ==> (installed_result(d, d.model_path->Some_0@) ==> acq_decided(
            r.0,
            r.1,
            outcome_installed(d.model_path->Some_0@),
        ))),
{
    let announce = match &result {
        Ok(d) => Ok(
            DownloadResult {
                success: d.success,
                message: d.message.clone(),
                model_path: match &d.model_path {
                    Some(p) => Some(p.clone()),
                    None => None,
                },
            },
        ),
        Err(e) => Err(e.clone()),
    };
    let c = Acquisition {
        cfg: AcqConfig {
            model_id: String::from_str(model_id),
            dir: String::new(),
            final_path: String::new(),
            temp_path: String::new(),
            url: String::new(),
            fallback_total: size,
        },
        total: size,
        downloaded: 0,
        last_emit_ms: 0,
        state: AcqState::Finished { result },
        emitted: Ghost(Seq::<u64>::empty()),
    };
    (c, AcqAction::Done(announce))
}

fn acq_fail(
    cfg: AcqConfig,
    total: u64,
    downloaded: u64,
    last_emit_ms: u64,
    emitted: Ghost<Seq<u64>>,
    prefix: &str,
    detail: &str,
) -> (r: (Acquisition, AcqAction))
    requires
        nondecreasing(emitted@),
    ensures
        r.0.cfg == cfg,
        r.0.total == total,
        r.0.downloaded == downloaded,
        r.0.last_emit_ms == last_emit_ms,
        r.0.emitted@ == emitted@,
        acq_wf(r.0),
        r.0.state matches AcqState::Finished { result: Err(e) } && e@ == prefix@ + detail@,
        r.1 matches AcqAction::Done(Err(e2)) && e2@ == prefix@ + detail@,
{
    let mut msg = String::from_str(prefix);
    msg.append(detail);
    let announce = msg.clone();
    let c = Acquisition {
        cfg,
        total,
        downloaded,
        last_emit_ms,
        state: AcqState::Finished { result: Err(msg) },
        emitted,
    };
    (c, AcqAction::Done(Err(announce)))
}

fn acq_cancelled(
    cfg: AcqConfig,
    total: u64,
    downloaded: u64,
    last_emit_ms: u64,
    emitted: Ghost<Seq<u64>>,
) -> (r: (Acquisition, AcqAction))
    requires
        nondecreasing(emitted@),
    ensures
        r.0.cfg == cfg,
        r.0.total == total,
        r.0.downloaded == downloaded,
        r.0.last_emit_ms == last_emit_ms,
        r.0.emitted@ == emitted@,
        acq_wf(r.0),
        r.0.state matches AcqState::Finished { result: Err(e) } && e@ == "Download cancelled"@,
        r.1 matches AcqAction::Done(Err(e2)) && e2@ == "Download cancelled"@,
{
    let msg = String::from_str("Download cancelled");
    let announce = msg.clone();
    let c = Acquisition {
        cfg,
        total,
        downloaded,
        last_emit_ms,
        state: AcqState::Finished { result: Err(msg) },
        emitted,
    };
    (c, AcqAction::Done(Err(announce)))
}

/// Idempotence: an acquisition that finds its model already installed
/// decides at once with the installed path; in particular the decision, not
/// a network request, is the only action, and any two such decisions for the
/// same model and home report the same path.
pub proof fn lemma_acquire_idempotent(
    c1: Acquisition,
    a1: AcqAction,
    c2: Acquisition,
    a2: AcqAction,
    path: Seq<char>,
)
    requires
        acq_decided(c1, a1, outcome_installed(path)),
        acq_decided(c2, a2, outcome_installed(path)),
    ensures
        !(a1 is HttpGet) && !(a1 is ReadChunk) && !(a1 is CreateDirAll) && !(a1 is CreateFile),
        a1 matches AcqAction::Done(Ok(d1)) && a2 matches AcqAction::Done(Ok(d2))
            && d1.model_path->Some_0@ == d2.model_path->Some_0@,
{
}

/// Atomicity: the final model name is only ever the target of the atomic
/// rename, which is requested exactly once, after the stream has ended and
/// the temporary file is flushed; every file created or flushed beforehand
/// is the distinct temporary file.
pub proof fn lemma_final_name_atomic(s: Acquisition, ev: AcqEvent, t: Acquisition, a: AcqAction)
    requires
        acq_wf(s),
        !(s.state is Finished),
        acq_step_spec(s, ev, t, a),
    ensures
        a matches AcqAction::RenameFile { from, to } ==> s.state is Flush && ev == AcqEvent::Flush(
            None::<String>,
        ) && from@ == s.cfg.temp_path@ && to@ == s.cfg.final_path@,
        a matches AcqAction::CreateFile(p) ==> p@ == s.cfg.temp_path@ && p@ != s.cfg.final_path@,
        a matches AcqAction::FlushFile(p) ==> p@ == s.cfg.temp_path@ && p@ != s.cfg.final_path@,
        a matches AcqAction::DeleteFile(p) ==> p@ == s.cfg.temp_path@ && p@ != s.cfg.final_path@,
{
    reveal_strlit(".tmp");
    assert(s.cfg.temp_path@.len() == s.cfg.final_path@.len() + 4);
}

/// Progress monotonicity: every step extends the emitted history in place,
/// each newly emitted record's byte count is at least every earlier one, and
/// the completed record reports exactly one hundred percent.
pub proof fn lemma_progress_monotone(s: Acquisition, ev: AcqEvent, t: Acquisition, a: AcqAction)
    requires
        acq_wf(s),
        acq_step_spec(s, ev, t, a),
    ensures
        nondecreasing(t.emitted@),
        s.emitted@.is_prefix_of(t.emitted@),
        a matches AcqAction::Emit(p) ==> t.emitted@ == s.emitted@.push(p.downloaded) && (forall|
            i: int,
        | 0 <= i < s.emitted@.len() ==> s.emitted@[i] <= p.downloaded),
        a matches AcqAction::Emit(p) ==> (p.status is Completed ==> p.percent_hundredths == 10000
            && p.downloaded >= s.total && p.downloaded >= s.downloaded),
{
    match s.state {
        AcqState::EnsureDir => {
            match ev {
                AcqEvent::Dir(None) => {
                    assert(t.emitted@ =~= s.emitted@.push(0u64));
                    assert(s.emitted@.len() == 0);
                },
                _ => {},
            }
        },
        AcqState::Stream => {
            match ev {
                AcqEvent::Chunk { len, write_error: None, now_ms } => {
                    let d2: u64 = if s.downloaded + len > u64::MAX {
                        u64::MAX
                    } else {
                        (s.downloaded + len) as u64
                    };
                    assert(d2 >= s.downloaded);
                },
                _ => {},
            }
        },
        AcqState::Rename => {
            match ev {
                AcqEvent::Rename(None) => {
                    let dfin: u64 = if s.downloaded >= s.total {
                        s.downloaded
                    } else {
                        s.total
                    };
                    assert(dfin >= s.downloaded);
                },
                _ => {},
            }
        },
        _ => {},
    }
    assert(s.emitted@.is_prefix_of(t.emitted@)) by {
        if t.emitted@ != s.emitted@ {
            assert(s.emitted@.is_prefix_of(t.emitted@));
        } else {
            assert(t.emitted@.subrange(0, s.emitted@.len() as int) =~= s.emitted@);
        }
    }
}

} // verus!
