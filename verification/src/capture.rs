//! Start and stop DebugView + logman ETW trace capture on a Hyper-V VM.
//!
//! Three functions follow the life of a capture session:
//!
//! 1. [`start_capture`] names the session and gives the script that configures the guest,
//!    launches DebugView in log-to-file mode and starts a `logman` ETW trace session.
//! 2. [`wait_capture`] tells how long to sleep until the next report of progress.
//! 3. [`stop_and_extract`] gives the scripts that stop both captures, decode the ETL file
//!    and copy the artefacts to the host, and collects what arrived there.

use vstd::prelude::*;

use crate::calendar::{self, chrono_timestamp};
use crate::duration::{self, Duration};
use crate::paths::{self, file_name, join_path};
use crate::ps_runner::{
    self, JobView, Outcome, PsRunnerError, PsRunnerErrorView, ScriptJob, ScriptResult,
};
use crate::scripts::{EXTRACT_SCRIPT, START_SCRIPT, STOP_SCRIPT};
use crate::text::{self, labelled, replace};

verus! {

// ---------------------------------------------------------------------------
// Types
// ---------------------------------------------------------------------------

/// Configuration for a capture session.
pub struct CaptureConfig {
    /// Hyper-V VM name.
    pub vm_name: String,
    /// Seconds to wait after verification before stopping capture.
    pub capture_duration: u32,
    /// Host directory where extracted log files will be placed.
    pub output_dir: String,
}

/// Handles for a running capture session (named by [`start_capture`]).
pub struct CaptureSession {
    /// Hyper-V VM name.
    pub vm_name: String,
    /// logman ETW session name (e.g. `"DriverTrace_20260305_120000"`).
    pub etw_session_name: String,
    /// Guest directory that holds all log artefacts.
    pub guest_log_dir: String,
    /// Guest path to the DebugView log file.
    pub guest_dbgview_log: String,
    /// Guest path to the ETL file.
    pub guest_etl_path: String,
    /// Host output directory (copied from [`CaptureConfig`]).
    pub output_dir: String,
}

/// What a [`CaptureSession`] holds.
pub struct SessionView {
    pub vm_name: Seq<char>,
    pub etw_session_name: Seq<char>,
    pub guest_log_dir: Seq<char>,
    pub guest_dbgview_log: Seq<char>,
    pub guest_etl_path: Seq<char>,
    pub output_dir: Seq<char>,
}

impl View for CaptureSession {
    type V = SessionView;

    open spec fn view(&self) -> SessionView {
        SessionView {
            vm_name: self.vm_name@,
            etw_session_name: self.etw_session_name@,
            guest_log_dir: self.guest_log_dir@,
            guest_dbgview_log: self.guest_dbgview_log@,
            guest_etl_path: self.guest_etl_path@,
            output_dir: self.output_dir@,
        }
    }
}

/// Files extracted from the VM after capture.
pub struct CaptureResult {
    /// Host path to the copied DebugView log (if successfully copied).
    pub dbgview_log: Option<String>,
    /// Host path to the copied ETL file (if successfully copied).
    pub etl_file: Option<String>,
    /// Host path to the decoded XML file (if successfully copied).
    pub xml_file: Option<String>,
    /// Host path to the tracerpt summary file (if successfully copied).
    pub summary_file: Option<String>,
    /// Host output directory.
    pub output_dir: String,
}

/// What a [`CaptureResult`] holds.
pub struct CaptureResultView {
    pub dbgview_log: Option<Seq<char>>,
    pub etl_file: Option<Seq<char>>,
    pub xml_file: Option<Seq<char>>,
    pub summary_file: Option<Seq<char>>,
    pub output_dir: Seq<char>,
}

impl View for CaptureResult {
    type V = CaptureResultView;

    open spec fn view(&self) -> CaptureResultView {
        CaptureResultView {
            dbgview_log: text::opt_text(self.dbgview_log),
            etl_file: text::opt_text(self.etl_file),
            xml_file: text::opt_text(self.xml_file),
            summary_file: text::opt_text(self.summary_file),
            output_dir: self.output_dir@,
        }
    }
}

/// KMDFv1 Trace Provider, always captured.
pub const KMDF_PROVIDER_GUID: &'static str = "{544D4C9D-942C-46D5-BF50-DF5CD9524A50}";

// ---------------------------------------------------------------------------
// Start
// ---------------------------------------------------------------------------

/// The session on the VM `vm_name` that was started at `timestamp`.
pub open spec fn session_of(
    vm_name: Seq<char>,
    output_dir: Seq<char>,
    timestamp: Seq<char>,
) -> SessionView {
    let name = "DriverTrace_"@ + timestamp;
    SessionView {
        vm_name,
        etw_session_name: name,
        guest_log_dir: r"C:\DriverLogs"@,
        guest_dbgview_log: r"C:\DriverLogs\dbgview_"@ + timestamp + ".log"@,
        guest_etl_path: r"C:\DriverLogs\"@ + name + ".etl"@,
        output_dir,
    }
}

/// A script of the capture: its text is written first, and it runs as the current user,
/// without a credential.
pub open spec fn capture_job(
    name: Seq<char>,
    content: Seq<char>,
    args: Seq<Seq<char>>,
    secs: nat,
) -> JobView {
    JobView {
        name,
        content: Some(content),
        args,
        timeout: duration::seconds(secs),
        credential: None,
        elevated: false,
    }
}

/// The script that starts `session`.
pub open spec fn start_job(session: SessionView) -> JobView {
    capture_job(
        "_start_capture.ps1"@,
        START_SCRIPT@,
        seq![
            "-VMName"@,
            session.vm_name,
            "-LogDir"@,
            session.guest_log_dir,
            "-DbgViewLog"@,
            session.guest_dbgview_log,
            "-EtlPath"@,
            session.guest_etl_path,
            "-SessionName"@,
            session.etw_session_name,
            "-ProviderGuid"@,
            KMDF_PROVIDER_GUID@,
        ],
        180,
    )
}

/// What a script of the capture counts for: a non-zero exit code is an error.
pub open spec fn completed(o: Outcome) -> Option<PsRunnerErrorView> {
    match ps_runner::verdict_of(o) {
        Ok(_) => None,
        Err(e) => Some(e),
    }
}

fn new_job(name: &str, content: &str, args: Vec<String>, secs: u64) -> (job: ScriptJob)
    ensures
        job@ == capture_job(name@, content@, text::texts(args@), secs as nat),
{
    ScriptJob {
        name: name.to_owned(),
        content: Some(content.to_owned()),
        args,
        timeout: Duration::from_secs(secs),
        credential: None,
        elevated: false,
    }
}

fn push_arg(args: &mut Vec<String>, name: &str, value: &str)
    ensures
        text::texts(final(args)@) == text::texts(old(args)@).push(name@).push(value@),
{
    args.push(name.to_owned());
    args.push(value.to_owned());
    assert(text::texts(args@) =~= text::texts(old(args)@).push(name@).push(value@));
}

fn write_start_job(session: &CaptureSession) -> (job: ScriptJob)
    ensures
        job@ == start_job(session@),
{
    let mut args: Vec<String> = Vec::new();
    push_arg(&mut args, "-VMName", session.vm_name.as_str());
    push_arg(&mut args, "-LogDir", session.guest_log_dir.as_str());
    push_arg(&mut args, "-DbgViewLog", session.guest_dbgview_log.as_str());
    push_arg(&mut args, "-EtlPath", session.guest_etl_path.as_str());
    push_arg(&mut args, "-SessionName", session.etw_session_name.as_str());
    push_arg(&mut args, "-ProviderGuid", KMDF_PROVIDER_GUID);
    assert(text::texts(args@) =~= start_job(session@).args);
    new_job("_start_capture.ps1", START_SCRIPT, args, 180)
}

/// The session that is started at `timestamp`, and the script that starts it.
pub fn start_capture_at(config: &CaptureConfig, timestamp: &str) -> (started: (
    CaptureSession,
    ScriptJob,
))
    ensures
        started.0@ == session_of(config.vm_name@, config.output_dir@, timestamp@),
        started.1@ == start_job(started.0@),
{
    let mut session_name = "DriverTrace_".to_owned();
    session_name.append(timestamp);
    let mut dbgview_log = r"C:\DriverLogs\dbgview_".to_owned();
    dbgview_log.append(timestamp);
    dbgview_log.append(".log");
    let mut etl_path = labelled(r"C:\DriverLogs\", &session_name);
    etl_path.append(".etl");
    let session = CaptureSession {
        vm_name: config.vm_name.clone(),
        etw_session_name: session_name,
        guest_log_dir: r"C:\DriverLogs".to_owned(),
        guest_dbgview_log: dbgview_log,
        guest_etl_path: etl_path,
        output_dir: config.output_dir.clone(),
    };
    let job = write_start_job(&session);
    (session, job)
}

/// The session that is started now, and the script that starts both DebugView and logman
/// ETW capture on the VM. Once the script has run, [`capture_started`] tells whether the
/// session is there; it must be passed to [`stop_and_extract`] later.
pub fn start_capture(config: &CaptureConfig) -> (started: (CaptureSession, ScriptJob))
    ensures
        exists|t: Seq<char>| #[trigger]
            calendar::is_timestamp(t) && started.0@ == session_of(
                config.vm_name@,
                config.output_dir@,
                t,
            ),
        started.1@ == start_job(started.0@),
{
    let timestamp = chrono_timestamp();
    start_capture_at(config, timestamp.as_str())
}

/// Fails where a script of the capture gave no result or exited with a non-zero code.
pub fn require_success(outcome: Result<ScriptResult, PsRunnerError>) -> (r: Result<
    (),
    PsRunnerError,
>)
    ensures
        match r {
            Ok(_) => completed(ps_runner::outcome_of(outcome)) is None,
            Err(e) => completed(ps_runner::outcome_of(outcome)) == Some(e@),
        },
{
    match outcome {
        Ok(result) => {
            if result.success() {
                Ok(())
            } else {
                Err(
                    PsRunnerError::ScriptFailed {
                        exit_code: result.exit_code,
                        stderr: result.stderr,
                    },
                )
            }
        },
        Err(e) => Err(e),
    }
}

/// The session whose start script gave `outcome`.
pub fn capture_started(
    session: CaptureSession,
    outcome: Result<ScriptResult, PsRunnerError>,
) -> (r: Result<CaptureSession, PsRunnerError>)
    ensures
        match r {
            Ok(s) => s == session && completed(ps_runner::outcome_of(outcome)) is None,
            Err(e) => completed(ps_runner::outcome_of(outcome)) == Some(e@),
        },
{
    match require_success(outcome) {
        Ok(_) => Ok(session),
        Err(e) => Err(e),
    }
}

// ---------------------------------------------------------------------------
// Wait
// ---------------------------------------------------------------------------

/// Seconds between two reports of progress.
pub const PROGRESS_STEP: u32 = 5;

/// How many seconds to sleep next in a capture of `duration_secs` seconds of which
/// `elapsed` have passed, `None` when it is over.
pub open spec fn next_wait(duration_secs: nat, elapsed: nat) -> Option<nat> {
    if elapsed >= duration_secs {
        None
    } else if duration_secs - elapsed < 5 {
        Some((duration_secs - elapsed) as nat)
    } else {
        Some(5)
    }
}

/// How many seconds to sleep next in a capture of `duration_secs` seconds of which
/// `elapsed` have passed, `None` when it is over. Progress is reported after each sleep.
pub fn wait_capture(duration_secs: u32, elapsed: u32) -> (secs: Option<u32>)
    ensures
        match secs {
            Some(s) => next_wait(duration_secs as nat, elapsed as nat) == Some(s as nat) && elapsed
                + s <= duration_secs,
            None => next_wait(duration_secs as nat, elapsed as nat) is None,
        },
{
    if elapsed >= duration_secs {
        None
    } else if duration_secs - elapsed < PROGRESS_STEP {
        Some(duration_secs - elapsed)
    } else {
        Some(PROGRESS_STEP)
    }
}

/// The seconds that have passed after `n` sleeps.
pub open spec fn elapsed_after(duration_secs: nat, n: nat) -> nat
    decreases n,
{
    if n == 0 {
        0
    } else {
        let before = elapsed_after(duration_secs, (n - 1) as nat);
        match next_wait(duration_secs, before) {
            Some(s) => before + s,
            None => before,
        }
    }
}

/// After `n` sleeps five seconds have passed for each, but never more than the duration:
/// the sleeps add up to it exactly.
pub proof fn law_waits_add_up(duration_secs: nat, n: nat)
    ensures
        elapsed_after(duration_secs, n) == (if 5 * n < duration_secs {
            5 * n
        } else {
            duration_secs
        }),
    decreases n,
{
    if n > 0 {
        law_waits_add_up(duration_secs, (n - 1) as nat);
    }
}

// ---------------------------------------------------------------------------
// Stop and extract
// ---------------------------------------------------------------------------

/// The artefacts of a session, as paths on the guest.
pub struct GuestFiles {
    pub dbgview_log: String,
    pub etl_file: String,
    pub xml_file: String,
    pub summary_file: String,
}

/// What a [`GuestFiles`] holds.
pub struct GuestFilesView {
    pub dbgview_log: Seq<char>,
    pub etl_file: Seq<char>,
    pub xml_file: Seq<char>,
    pub summary_file: Seq<char>,
}

impl View for GuestFiles {
    type V = GuestFilesView;

    open spec fn view(&self) -> GuestFilesView {
        GuestFilesView {
            dbgview_log: self.dbgview_log@,
            etl_file: self.etl_file@,
            xml_file: self.xml_file@,
            summary_file: self.summary_file@,
        }
    }
}

/// The copies of the artefacts of a session, as paths on the host.
pub struct HostFiles {
    pub dbgview_log: String,
    pub etl_file: String,
    pub xml_file: String,
    pub summary_file: String,
}

/// What a [`HostFiles`] holds.
pub struct HostFilesView {
    pub dbgview_log: Seq<char>,
    pub etl_file: Seq<char>,
    pub xml_file: Seq<char>,
    pub summary_file: Seq<char>,
}

impl View for HostFiles {
    type V = HostFilesView;

    open spec fn view(&self) -> HostFilesView {
        HostFilesView {
            dbgview_log: self.dbgview_log@,
            etl_file: self.etl_file@,
            xml_file: self.xml_file@,
            summary_file: self.summary_file@,
        }
    }
}

/// Which copies of the artefacts of a session are there.
#[derive(Clone, Copy, Debug)]
pub struct FoundFiles {
    pub dbgview_log: bool,
    pub etl_file: bool,
    pub xml_file: bool,
    pub summary_file: bool,
}

/// News while a session is stopped.
pub enum CaptureEvent {
    /// The session is to be stopped.
    Begin,
    /// What came of the script that stops it.
    Stopped(Result<ScriptResult, PsRunnerError>),
    /// What came of the script that copies the artefacts.
    Extracted(Result<ScriptResult, PsRunnerError>),
    /// Which copies are there.
    Found(FoundFiles),
}

/// What a [`CaptureEvent`] holds.
pub enum CaptureEventView {
    Begin,
    Stopped(Outcome),
    Extracted(Outcome),
    Found(FoundFiles),
}

impl View for CaptureEvent {
    type V = CaptureEventView;

    open spec fn view(&self) -> CaptureEventView {
        match self {
            CaptureEvent::Begin => CaptureEventView::Begin,
            CaptureEvent::Stopped(outcome) => CaptureEventView::Stopped(
                ps_runner::outcome_of(*outcome),
            ),
            CaptureEvent::Extracted(outcome) => CaptureEventView::Extracted(
                ps_runner::outcome_of(*outcome),
            ),
            CaptureEvent::Found(found) => CaptureEventView::Found(*found),
        }
    }
}

/// What to do next while a session is stopped.
pub enum CaptureAction {
    /// Run the script that stops it.
    Stop(ScriptJob),
    /// Run the script that copies the artefacts.
    Extract(ScriptJob),
    /// Look which of these copies are there.
    Find(HostFiles),
    /// Nothing: this came of it.
    Done(Result<CaptureResult, PsRunnerError>),
}

/// What a [`CaptureAction`] holds.
pub enum CaptureActionView {
    Stop(JobView),
    Extract(JobView),
    Find(HostFilesView),
    Done(Result<CaptureResultView, PsRunnerErrorView>),
}

/// What came of a capture.
pub open spec fn captured_of(r: Result<CaptureResult, PsRunnerError>) -> Result<
    CaptureResultView,
    PsRunnerErrorView,
> {
    match r {
        Ok(result) => Ok(result@),
        Err(e) => Err(e@),
    }
}

impl View for CaptureAction {
    type V = CaptureActionView;

    open spec fn view(&self) -> CaptureActionView {
        match self {
            CaptureAction::Stop(job) => CaptureActionView::Stop(job@),
            CaptureAction::Extract(job) => CaptureActionView::Extract(job@),
            CaptureAction::Find(files) => CaptureActionView::Find(files@),
            CaptureAction::Done(r) => CaptureActionView::Done(captured_of(*r)),
        }
    }
}

/// The script that stops `session`.
pub open spec fn stop_job(session: SessionView) -> JobView {
    capture_job(
        "_stop_capture.ps1"@,
        STOP_SCRIPT@,
        seq![
            "-VMName"@,
            session.vm_name,
            "-SessionName"@,
            session.etw_session_name,
            "-EtlPath"@,
            session.guest_etl_path,
        ],
        120,
    )
}

/// The artefacts of `session`. The decoded trace and its summary stand beside the trace.
pub open spec fn guest_files(session: SessionView) -> GuestFilesView {
    GuestFilesView {
        dbgview_log: session.guest_dbgview_log,
        etl_file: session.guest_etl_path,
        xml_file: text::replace_of(session.guest_etl_path, ".etl"@, ".xml"@),
        summary_file: text::replace_of(session.guest_etl_path, ".etl"@, "_summary.txt"@),
    }
}

/// Where the host has the copy of the guest file `guest`: in the output directory, under the
/// file's own name.
pub open spec fn host_copy_of(output_dir: Seq<char>, guest: Seq<char>) -> Seq<char> {
    paths::joined(output_dir, paths::file_name_of(guest))
}

/// The copies of the artefacts of `session`.
pub open spec fn host_files(session: SessionView) -> HostFilesView {
    let files = guest_files(session);
    HostFilesView {
        dbgview_log: host_copy_of(session.output_dir, files.dbgview_log),
        etl_file: host_copy_of(session.output_dir, files.etl_file),
        xml_file: host_copy_of(session.output_dir, files.xml_file),
        summary_file: host_copy_of(session.output_dir, files.summary_file),
    }
}

/// The script that copies the artefacts of `session` to the host.
pub open spec fn extract_job(session: SessionView) -> JobView {
    let files = guest_files(session);
    capture_job(
        "_extract_capture.ps1"@,
        EXTRACT_SCRIPT@,
        seq![
            "-VMName"@,
            session.vm_name,
            "-DbgViewLog"@,
            files.dbgview_log,
            "-EtlPath"@,
            files.etl_file,
            "-XmlPath"@,
            files.xml_file,
            "-SummaryPath"@,
            files.summary_file,
            "-OutputDir"@,
            session.output_dir,
        ],
        120,
    )
}

/// The path of a copy, where it is there.
pub open spec fn if_found(path: Seq<char>, found: bool) -> Option<Seq<char>> {
    if found {
        Some(path)
    } else {
        None
    }
}

/// What comes of stopping `session` when the copies `found` are there: the path of each of
/// them.
pub open spec fn found_files(session: SessionView, found: FoundFiles) -> CaptureResultView {
    let files = host_files(session);
    CaptureResultView {
        dbgview_log: if_found(files.dbgview_log, found.dbgview_log),
        etl_file: if_found(files.etl_file, found.etl_file),
        xml_file: if_found(files.xml_file, found.xml_file),
        summary_file: if_found(files.summary_file, found.summary_file),
        output_dir: session.output_dir,
    }
}

/// What to do next while `session` is stopped, after `event`: stop, extract, look for the
/// copies. A script that fails ends it.
pub open spec fn stop_step(session: SessionView, event: CaptureEventView) -> CaptureActionView {
    match event {
        CaptureEventView::Begin => CaptureActionView::Stop(stop_job(session)),
        CaptureEventView::Stopped(o) => match completed(o) {
            Some(e) => CaptureActionView::Done(Err(e)),
            None => CaptureActionView::Extract(extract_job(session)),
        },
        CaptureEventView::Extracted(o) => match completed(o) {
            Some(e) => CaptureActionView::Done(Err(e)),
            None => CaptureActionView::Find(host_files(session)),
        },
        CaptureEventView::Found(found) => CaptureActionView::Done(Ok(found_files(session, found))),
    }
}

fn write_stop_job(session: &CaptureSession) -> (job: ScriptJob)
    ensures
        job@ == stop_job(session@),
{
    let mut args: Vec<String> = Vec::new();
    push_arg(&mut args, "-VMName", session.vm_name.as_str());
    push_arg(&mut args, "-SessionName", session.etw_session_name.as_str());
    push_arg(&mut args, "-EtlPath", session.guest_etl_path.as_str());
    assert(text::texts(args@) =~= stop_job(session@).args);
    new_job("_stop_capture.ps1", STOP_SCRIPT, args, 120)
}

fn list_guest_files(session: &CaptureSession) -> (files: GuestFiles)
    ensures
        files@ == guest_files(session@),
{
    proof {
        reveal_strlit(".etl");
    }
    GuestFiles {
        dbgview_log: session.guest_dbgview_log.clone(),
        etl_file: session.guest_etl_path.clone(),
        xml_file: replace(session.guest_etl_path.as_str(), ".etl", ".xml"),
        summary_file: replace(session.guest_etl_path.as_str(), ".etl", "_summary.txt"),
    }
}

/// Where the host has the copy of the guest file `guest`: in `output_dir`, under the file's
/// own name.
pub fn host_copy(output_dir: &str, guest: &str) -> (path: String)
    ensures
        path@ == host_copy_of(output_dir@, guest@),
{
    let name = file_name(guest);
    join_path(output_dir, name.as_str())
}

fn list_host_files(session: &CaptureSession) -> (files: HostFiles)
    ensures
        files@ == host_files(session@),
{
    let guest = list_guest_files(session);
    let dir = session.output_dir.as_str();
    HostFiles {
        dbgview_log: host_copy(dir, guest.dbgview_log.as_str()),
        etl_file: host_copy(dir, guest.etl_file.as_str()),
        xml_file: host_copy(dir, guest.xml_file.as_str()),
        summary_file: host_copy(dir, guest.summary_file.as_str()),
    }
}

fn keep_found(path: String, found: bool) -> (r: Option<String>)
    ensures
        text::opt_text(r) == if_found(path@, found),
{
    if found {
        Some(path)
    } else {
        None
    }
}

fn collect_found(session: &CaptureSession, found: FoundFiles) -> (result: CaptureResult)
    ensures
        result@ == found_files(session@, found),
{
    let files = list_host_files(session);
    CaptureResult {
        dbgview_log: keep_found(files.dbgview_log, found.dbgview_log),
        etl_file: keep_found(files.etl_file, found.etl_file),
        xml_file: keep_found(files.xml_file, found.xml_file),
        summary_file: keep_found(files.summary_file, found.summary_file),
        output_dir: session.output_dir.clone(),
    }
}

fn write_extract_job(session: &CaptureSession) -> (job: ScriptJob)
    ensures
        job@ == extract_job(session@),
{
    let files = list_guest_files(session);
    let mut args: Vec<String> = Vec::new();
    push_arg(&mut args, "-VMName", session.vm_name.as_str());
    push_arg(&mut args, "-DbgViewLog", files.dbgview_log.as_str());
    push_arg(&mut args, "-EtlPath", files.etl_file.as_str());
    push_arg(&mut args, "-XmlPath", files.xml_file.as_str());
    push_arg(&mut args, "-SummaryPath", files.summary_file.as_str());
    push_arg(&mut args, "-OutputDir", session.output_dir.as_str());
    assert(text::texts(args@) =~= extract_job(session@).args);
    new_job("_extract_capture.ps1", EXTRACT_SCRIPT, args, 120)
}

/// What to do next to stop both capture methods, decode the ETL, and copy artefacts to the
/// host, after `event`.
pub fn stop_and_extract(session: &CaptureSession, event: CaptureEvent) -> (action: CaptureAction)
    ensures
        action@ == stop_step(session@, event@),
{
    match event {
        CaptureEvent::Begin => CaptureAction::Stop(write_stop_job(session)),
        CaptureEvent::Stopped(outcome) => match require_success(outcome) {
            Ok(_) => CaptureAction::Extract(write_extract_job(session)),
            Err(e) => CaptureAction::Done(Err(e)),
        },
        CaptureEvent::Extracted(outcome) => match require_success(outcome) {
            Ok(_) => CaptureAction::Find(list_host_files(session)),
            Err(e) => CaptureAction::Done(Err(e)),
        },
        CaptureEvent::Found(found) => CaptureAction::Done(Ok(collect_found(session, found))),
    }
}

// ---------------------------------------------------------------------------
// Laws
// ---------------------------------------------------------------------------

/// What comes of stopping `session` when its scripts give `stopped` and `extracted` and
/// the copies `found` are there.
pub open spec fn captured(
    session: SessionView,
    stopped: Outcome,
    extracted: Outcome,
    found: FoundFiles,
) -> Result<CaptureResultView, PsRunnerErrorView> {
    if completed(stopped) is Some {
        Err(completed(stopped)->0)
    } else if completed(extracted) is Some {
        Err(completed(extracted)->0)
    } else {
        Ok(found_files(session, found))
    }
}

/// The first of the two scripts that fails decides what comes of stopping a session; when
/// both succeed, it gives the paths of the copies that are there.
pub proof fn law_first_failing_script_decides(
    session: SessionView,
    stopped: Outcome,
    extracted: Outcome,
    found: FoundFiles,
)
    ensures
        stop_step(session, CaptureEventView::Begin) == CaptureActionView::Stop(stop_job(session)),
        match stop_step(session, CaptureEventView::Stopped(stopped)) {
            CaptureActionView::Done(r) => r == captured(session, stopped, extracted, found),
            CaptureActionView::Extract(_) => match stop_step(
                session,
                CaptureEventView::Extracted(extracted),
            ) {
                CaptureActionView::Done(r) => r == captured(session, stopped, extracted, found),
                CaptureActionView::Find(_) => stop_step(session, CaptureEventView::Found(found))
                    == CaptureActionView::Done(captured(session, stopped, extracted, found)),
                _ => false,
            },
            _ => false,
        },
{
}

/// Two sessions that were started at different moments share neither their name nor a
/// file on the guest.
pub proof fn law_sessions_do_not_share_files(
    vm_name: Seq<char>,
    output_dir: Seq<char>,
    a: nat,
    b: nat,
)
    requires
        a != b,
    ensures
        ({
            let sa = session_of(vm_name, output_dir, calendar::timestamp_of(a));
            let sb = session_of(vm_name, output_dir, calendar::timestamp_of(b));
            &&& sa.etw_session_name != sb.etw_session_name
            &&& sa.guest_dbgview_log != sb.guest_dbgview_log
            &&& sa.guest_etl_path != sb.guest_etl_path
        }),
{
    let ta = calendar::timestamp_of(a);
    let tb = calendar::timestamp_of(b);
    if ta == tb {
        calendar::law_timestamps_are_unique(a, b);
    }
    lemma_framed_differ("DriverTrace_"@, ta, tb, Seq::empty());
    lemma_framed_differ(r"C:\DriverLogs\dbgview_"@, ta, tb, ".log"@);
    let na = "DriverTrace_"@ + ta;
    let nb = "DriverTrace_"@ + tb;
    assert(na + Seq::empty() =~= na);
    assert(nb + Seq::empty() =~= nb);
    lemma_framed_differ(r"C:\DriverLogs\"@, na, nb, ".etl"@);
}

/// Texts that differ also differ between one start and one end.
proof fn lemma_framed_differ(start: Seq<char>, a: Seq<char>, b: Seq<char>, end: Seq<char>)
    requires
        a != b,
    ensures
        start + a + end != start + b + end,
{
    let fa = start + a + end;
    let fb = start + b + end;
    if fa == fb {
        assert(fa.len() == fb.len());
        assert(a =~= fa.subrange(start.len() as int, (start.len() + a.len()) as int));
        assert(b =~= fb.subrange(start.len() as int, (start.len() + b.len()) as int));
    }
}

/// When both scripts succeed, the result names the output directory and each copy that is
/// there: its path is the output directory and the file name of the artefact on the guest.
pub proof fn law_result_names_the_copies(
    session: SessionView,
    stopped: Outcome,
    extracted: Outcome,
    found: FoundFiles,
)
    requires
        completed(stopped) is None,
        completed(extracted) is None,
    ensures
        captured(session, stopped, extracted, found) matches Ok(r) && {
            let guest = guest_files(session);
            &&& r.output_dir == session.output_dir
            &&& r.dbgview_log == if_found(
                host_copy_of(session.output_dir, session.guest_dbgview_log),
                found.dbgview_log,
            )
            &&& r.etl_file == if_found(
                host_copy_of(session.output_dir, session.guest_etl_path),
                found.etl_file,
            )
            &&& r.xml_file == if_found(
                host_copy_of(session.output_dir, guest.xml_file),
                found.xml_file,
            )
            &&& r.summary_file == if_found(
                host_copy_of(session.output_dir, guest.summary_file),
                found.summary_file,
            )
        },
{
}

/// A copy keeps the name that its file has on the guest, whatever directory it was in, unless
/// the name is taken into the prefix of the guest path, as in `\\server\share`.
pub proof fn law_copies_keep_their_names(
    output_dir: Seq<char>,
    guest_dir: Seq<char>,
    name: Seq<char>,
)
    requires
        paths::is_name(name),
        paths::prefix_of(guest_dir.push('\\') + name).1 <= guest_dir.len(),
    ensures
        host_copy_of(output_dir, guest_dir.push('\\') + name) == paths::joined(output_dir, name),
{
    paths::law_file_name_in_directory(guest_dir, name);
}

/// Whether `stem` followed by `.etl` holds `.etl` at its end only.
pub open spec fn is_trace_stem(stem: Seq<char>) -> bool {
    forall|i: int| 0 <= i < stem.len() ==> !".etl"@.is_prefix_of(#[trigger] (stem + ".etl"@).skip(i))
}

/// The decoded trace and its summary stand beside the trace, under its name.
pub proof fn law_artefacts_stand_beside_the_trace(session: SessionView, stem: Seq<char>)
    requires
        session.guest_etl_path == stem + ".etl"@,
        is_trace_stem(stem),
    ensures
        guest_files(session).etl_file == stem + ".etl"@,
        guest_files(session).xml_file == stem + ".xml"@,
        guest_files(session).summary_file == stem + "_summary.txt"@,
{
    reveal_strlit(".etl");
    text::lemma_replace_end(stem, ".etl"@, ".xml"@);
    text::lemma_replace_end(stem, ".etl"@, "_summary.txt"@);
}

/// The copies of a session that was started at some moment have names of their own, made of
/// that moment.
pub proof fn law_copies_are_named_by_the_moment(
    vm_name: Seq<char>,
    output_dir: Seq<char>,
    secs: nat,
)
    ensures
        ({
            let t = calendar::timestamp_of(secs);
            let files = host_files(session_of(vm_name, output_dir, t));
            &&& files.dbgview_log == paths::joined(output_dir, "dbgview_"@ + t + ".log"@)
            &&& files.etl_file == paths::joined(output_dir, "DriverTrace_"@ + t + ".etl"@)
            &&& files.xml_file == paths::joined(output_dir, "DriverTrace_"@ + t + ".xml"@)
            &&& files.summary_file == paths::joined(
                output_dir,
                "DriverTrace_"@ + t + "_summary.txt"@,
            )
        }),
{
    let t = calendar::timestamp_of(secs);
    let session = session_of(vm_name, output_dir, t);
    lemma_trace_stem(secs);
    lemma_log_paths(t);
    law_artefacts_stand_beside_the_trace(session, r"C:\DriverLogs\"@ + ("DriverTrace_"@ + t));
    lemma_names_without_separators();
    lemma_copy_is_named(output_dir, "dbgview_"@, secs, ".log"@);
    lemma_copy_is_named(output_dir, "DriverTrace_"@, secs, ".etl"@);
    lemma_copy_is_named(output_dir, "DriverTrace_"@, secs, ".xml"@);
    lemma_copy_is_named(output_dir, "DriverTrace_"@, secs, "_summary.txt"@);
}

/// The path of a trace that was started at some moment holds `.etl` at its end only.
proof fn lemma_trace_stem(secs: nat)
    ensures
        is_trace_stem(r"C:\DriverLogs\"@ + ("DriverTrace_"@ + calendar::timestamp_of(secs))),
{
    let t = calendar::timestamp_of(secs);
    let stem = r"C:\DriverLogs\"@ + ("DriverTrace_"@ + t);
    reveal_strlit(r"C:\DriverLogs\");
    reveal_strlit("DriverTrace_");
    reveal_strlit(".etl");
    calendar::law_timestamp_characters(secs);
    assert forall|i: int| 0 <= i < stem.len() implies !".etl"@.is_prefix_of(
        #[trigger] (stem + ".etl"@).skip(i),
    ) by {
        let start = r"C:\DriverLogs\"@.len() + "DriverTrace_"@.len();
        if i >= start {
            assert(stem[i] == t[i - start]);
        }
        assert(stem[i] != '.');
        let rest = (stem + ".etl"@).skip(i);
        if ".etl"@.is_prefix_of(rest) {
            assert(rest.subrange(0, ".etl"@.len() as int)[0] == stem[i]);
        }
    }
}

/// The paths of the artefacts, as the log directory and a name.
proof fn lemma_log_paths(t: Seq<char>)
    ensures
        ({
            let dir = r"C:\DriverLogs\"@;
            let name = "DriverTrace_"@ + t;
            &&& r"C:\DriverLogs\dbgview_"@ + t + ".log"@ == dir + ("dbgview_"@ + t + ".log"@)
            &&& dir + name + ".etl"@ == dir + (name + ".etl"@)
            &&& dir + name + ".xml"@ == dir + (name + ".xml"@)
            &&& dir + name + "_summary.txt"@ == dir + (name + "_summary.txt"@)
        }),
{
    reveal_strlit(r"C:\DriverLogs\dbgview_");
    reveal_strlit(r"C:\DriverLogs\");
    reveal_strlit("dbgview_");
    let dir = r"C:\DriverLogs\"@;
    let name = "DriverTrace_"@ + t;
    assert(r"C:\DriverLogs\dbgview_"@ =~= dir + "dbgview_"@);
    assert(r"C:\DriverLogs\dbgview_"@ + t + ".log"@ =~= dir + ("dbgview_"@ + t + ".log"@));
    assert(dir + name + ".etl"@ =~= dir + (name + ".etl"@));
    assert(dir + name + ".xml"@ =~= dir + (name + ".xml"@));
    assert(dir + name + "_summary.txt"@ =~= dir + (name + "_summary.txt"@));
}

/// The copy of an artefact whose name holds a moment.
proof fn lemma_copy_is_named(output_dir: Seq<char>, start: Seq<char>, secs: nat, end: Seq<char>)
    requires
        start.len() >= 3,
        forall|i: int| 0 <= i < start.len() ==> !paths::is_separator(#[trigger] start[i]),
        forall|i: int| 0 <= i < end.len() ==> !paths::is_separator(#[trigger] end[i]),
    ensures
        host_copy_of(
            output_dir,
            r"C:\DriverLogs\"@ + (start + calendar::timestamp_of(secs) + end),
        ) == paths::joined(output_dir, start + calendar::timestamp_of(secs) + end),
{
    lemma_framed_name(start, secs, end);
    lemma_copy_of_log(output_dir, start + calendar::timestamp_of(secs) + end);
}

proof fn lemma_names_without_separators()
    ensures
        "dbgview_"@.len() >= 3,
        "DriverTrace_"@.len() >= 3,
        forall|i: int| 0 <= i < "dbgview_"@.len() ==> !paths::is_separator(#[trigger] "dbgview_"@[i]),
        forall|i: int|
            0 <= i < "DriverTrace_"@.len() ==> !paths::is_separator(#[trigger] "DriverTrace_"@[i]),
        forall|i: int| 0 <= i < ".log"@.len() ==> !paths::is_separator(#[trigger] ".log"@[i]),
        forall|i: int| 0 <= i < ".etl"@.len() ==> !paths::is_separator(#[trigger] ".etl"@[i]),
        forall|i: int| 0 <= i < ".xml"@.len() ==> !paths::is_separator(#[trigger] ".xml"@[i]),
        forall|i: int|
            0 <= i < "_summary.txt"@.len() ==> !paths::is_separator(#[trigger] "_summary.txt"@[i]),
{
    reveal_strlit("dbgview_");
    reveal_strlit("DriverTrace_");
    reveal_strlit(".log");
    reveal_strlit(".etl");
    reveal_strlit(".xml");
    reveal_strlit("_summary.txt");
}

/// The copy of a file in the guest's log directory.
proof fn lemma_copy_of_log(output_dir: Seq<char>, name: Seq<char>)
    requires
        paths::is_name(name),
    ensures
        host_copy_of(output_dir, r"C:\DriverLogs\"@ + name) == paths::joined(output_dir, name),
{
    reveal_strlit(r"C:\DriverLogs");
    reveal_strlit(r"C:\DriverLogs\");
    let dir = r"C:\DriverLogs"@;
    let path = dir.push('\\') + name;
    assert(r"C:\DriverLogs\"@ =~= dir.push('\\'));
    assert(path[0] == 'C' && path[1] == ':');
    law_copies_keep_their_names(output_dir, dir, name);
}

/// A moment between a start and an end without separators is the name of a file.
proof fn lemma_framed_name(start: Seq<char>, secs: nat, end: Seq<char>)
    requires
        start.len() >= 3,
        forall|i: int| 0 <= i < start.len() ==> !paths::is_separator(#[trigger] start[i]),
        forall|i: int| 0 <= i < end.len() ==> !paths::is_separator(#[trigger] end[i]),
    ensures
        paths::is_name(start + calendar::timestamp_of(secs) + end),
{
    let t = calendar::timestamp_of(secs);
    let name = start + t + end;
    calendar::law_timestamp_characters(secs);
    assert forall|i: int| 0 <= i < name.len() implies !paths::is_separator(#[trigger] name[i]) by {
        if i >= start.len() && i < start.len() + t.len() {
            assert(name[i] == t[i - start.len()]);
        } else if i >= start.len() + t.len() {
            assert(name[i] == end[i - start.len() - t.len()]);
        } else {
            assert(name[i] == start[i]);
        }
    }
    reveal_strlit(".");
    reveal_strlit("..");
    assert(name.len() >= 3);
}

// ---------------------------------------------------------------------------
// Laws of sessions and scripts
// ---------------------------------------------------------------------------

/// A session carries its moment in its name and in the names of its files, which lie in one
/// directory of the guest, and keeps the VM and the output directory.
pub proof fn law_session_carries_its_moment(
    vm_name: Seq<char>,
    output_dir: Seq<char>,
    timestamp: Seq<char>,
)
    ensures
        ({
            let s = session_of(vm_name, output_dir, timestamp);
            &&& s.vm_name == vm_name
            &&& s.output_dir == output_dir
            &&& s.etw_session_name == "DriverTrace_"@ + timestamp
            &&& s.guest_log_dir == r"C:\DriverLogs"@
            &&& s.guest_dbgview_log == r"C:\DriverLogs\dbgview_"@ + timestamp + ".log"@
            &&& s.guest_etl_path == r"C:\DriverLogs\DriverTrace_"@ + timestamp + ".etl"@
        }),
{
    reveal_strlit(r"C:\DriverLogs\");
    reveal_strlit(r"C:\DriverLogs\DriverTrace_");
    reveal_strlit("DriverTrace_");
    assert(r"C:\DriverLogs\"@ + ("DriverTrace_"@ + timestamp) + ".etl"@
        =~= r"C:\DriverLogs\DriverTrace_"@ + timestamp + ".etl"@);
}

/// Every script of a capture gets what it is about under the name of its parameter: the VM, the
/// session, its files and, for the copies, the output directory.
pub proof fn law_capture_scripts_get_their_parameters(session: SessionView)
    ensures
        ({
            let start = start_job(session);
            let stop = stop_job(session);
            let extract = extract_job(session);
            &&& start.name == "_start_capture.ps1"@
            &&& start.args == seq![
                "-VMName"@,
                session.vm_name,
                "-LogDir"@,
                session.guest_log_dir,
                "-DbgViewLog"@,
                session.guest_dbgview_log,
                "-EtlPath"@,
                session.guest_etl_path,
                "-SessionName"@,
                session.etw_session_name,
                "-ProviderGuid"@,
                "{544D4C9D-942C-46D5-BF50-DF5CD9524A50}"@,
            ]
            &&& stop.name == "_stop_capture.ps1"@
            &&& stop.args == seq![
                "-VMName"@,
                session.vm_name,
                "-SessionName"@,
                session.etw_session_name,
                "-EtlPath"@,
                session.guest_etl_path,
            ]
            &&& extract.name == "_extract_capture.ps1"@
            &&& extract.args == seq![
                "-VMName"@,
                session.vm_name,
                "-DbgViewLog"@,
                session.guest_dbgview_log,
                "-EtlPath"@,
                session.guest_etl_path,
                "-XmlPath"@,
                text::replace_of(session.guest_etl_path, ".etl"@, ".xml"@),
                "-SummaryPath"@,
                text::replace_of(session.guest_etl_path, ".etl"@, "_summary.txt"@),
                "-OutputDir"@,
                session.output_dir,
            ]
        }),
{
}

/// A capture starts within three minutes, and is stopped and copied within two each. Its scripts
/// are written first and run as the current user, without a credential.
pub proof fn law_capture_scripts_have_their_time(session: SessionView)
    ensures
        start_job(session).timeout == 180_000_000_000,
        stop_job(session).timeout == 120_000_000_000,
        extract_job(session).timeout == 120_000_000_000,
        start_job(session).content == Some(START_SCRIPT@),
        stop_job(session).content == Some(STOP_SCRIPT@),
        extract_job(session).content == Some(EXTRACT_SCRIPT@),
        !start_job(session).elevated && start_job(session).credential is None,
        !stop_job(session).elevated && stop_job(session).credential is None,
        !extract_job(session).elevated && extract_job(session).credential is None,
{
}

/// A script of a capture is done exactly when it ran to its end with exit code zero; any other
/// exit code is an error with the code and the errors that were written, and an error stays what
/// it is.
pub proof fn law_capture_script_is_done_with_exit_code_zero(
    r: ps_runner::ScriptResultView,
    e: PsRunnerErrorView,
)
    ensures
        completed(Ok(r)) is None <==> r.exit_code == 0,
        r.exit_code != 0 ==> completed(Ok(r)) == Some(
            PsRunnerErrorView::ScriptFailed { exit_code: r.exit_code, stderr: r.stderr },
        ),
        completed(Err(e)) == Some(e),
{
}

/// A copy is named in the result exactly when it is there, by the path at which it was looked
/// for.
pub proof fn law_copies_that_are_there_are_named(session: SessionView, found: FoundFiles)
    ensures
        ({
            let files = host_files(session);
            stop_step(session, CaptureEventView::Found(found)) matches CaptureActionView::Done(r)
                && r matches Ok(result) && {
                &&& result.output_dir == session.output_dir
                &&& found.dbgview_log ==> result.dbgview_log == Some(files.dbgview_log)
                &&& !found.dbgview_log ==> result.dbgview_log is None
                &&& found.etl_file ==> result.etl_file == Some(files.etl_file)
                &&& !found.etl_file ==> result.etl_file is None
                &&& found.xml_file ==> result.xml_file == Some(files.xml_file)
                &&& !found.xml_file ==> result.xml_file is None
                &&& found.summary_file ==> result.summary_file == Some(files.summary_file)
                &&& !found.summary_file ==> result.summary_file is None
            }
        }),
{
}

/// Each copy is looked for in the output directory, under the file name of its own artefact.
pub proof fn law_copies_are_looked_for_in_the_output_directory(session: SessionView)
    ensures
        ({
            let files = host_files(session);
            &&& files.dbgview_log == paths::joined(
                session.output_dir,
                paths::file_name_of(session.guest_dbgview_log),
            )
            &&& files.etl_file == paths::joined(
                session.output_dir,
                paths::file_name_of(session.guest_etl_path),
            )
            &&& files.xml_file == paths::joined(
                session.output_dir,
                paths::file_name_of(
                    text::replace_of(session.guest_etl_path, ".etl"@, ".xml"@),
                ),
            )
            &&& files.summary_file == paths::joined(
                session.output_dir,
                paths::file_name_of(
                    text::replace_of(session.guest_etl_path, ".etl"@, "_summary.txt"@),
                ),
            )
        }),
{
}

/// A capture is stopped first, then copied, then looked for, and a script that does not end with
/// exit code zero ends it with what went wrong.
pub proof fn law_capture_is_stopped_then_copied(
    session: SessionView,
    r: ps_runner::ScriptResultView,
    e: PsRunnerErrorView,
)
    ensures
        ({
            let failed = PsRunnerErrorView::ScriptFailed {
                exit_code: r.exit_code,
                stderr: r.stderr,
            };
            let stopped = stop_step(session, CaptureEventView::Stopped(Ok(r)));
            let extracted = stop_step(session, CaptureEventView::Extracted(Ok(r)));
            &&& stop_step(session, CaptureEventView::Begin) is Stop
            &&& r.exit_code == 0 ==> stopped is Extract && extracted is Find
            &&& r.exit_code != 0 ==> stopped == CaptureActionView::Done(Err(failed)) && extracted
                == CaptureActionView::Done(Err(failed))
            &&& stop_step(session, CaptureEventView::Stopped(Err(e))) == CaptureActionView::Done(
                Err(e),
            )
            &&& stop_step(session, CaptureEventView::Extracted(Err(e))) == CaptureActionView::Done(
                Err(e),
            )
        }),
{
}

/// A wait is never longer than five seconds nor than what is left, and there is one exactly
/// while time is left.
pub proof fn law_wait_is_short(duration_secs: nat, elapsed: nat)
    ensures
        next_wait(duration_secs, elapsed) is Some <==> elapsed < duration_secs,
        next_wait(duration_secs, elapsed) matches Some(s) ==> 0 < s <= 5 && elapsed + s
            <= duration_secs && (s < 5 ==> elapsed + s == duration_secs),
{
}

} // verus!
