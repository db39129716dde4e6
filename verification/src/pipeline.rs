//! Pipeline orchestrator for driver smoketest runs.
//!
//! [`Pipeline`] drives a sequence of PowerShell-backed steps (trace capture, driver
//! install, verification) and collects results into a [`SmoketestReport`]. It decides what
//! happens next; whoever drives it runs the scripts, waits and looks for files, and reports
//! back with events and readings of a clock.

use vstd::prelude::*;

use crate::calendar::{self, chrono_timestamp};
use crate::capture::{
    self, capture_started, start_capture_at, stop_and_extract, CaptureAction, CaptureConfig,
    CaptureEvent, CaptureResult, CaptureResultView, CaptureSession, FoundFiles, HostFiles,
    HostFilesView, SessionView,
};
use crate::duration::{self, Duration};
use crate::error::{SmoketestError, SmoketestErrorView};
use crate::numbers::{self, render, unsigned_to_string};
use crate::package::{self, package_driver, PackageDir, PackageView};
use crate::ps_runner::{
    self, CredentialView, JobView, Outcome, PsRunner, PsRunnerError, PsRunnerErrorView, ScriptJob,
    ScriptResult, VmCredential,
};
use crate::report::{self, passed, ReportView, SmoketestReport, StepResult, StepView};
use crate::steps::{
    self, driver_info, given_up_step, reason_to_skip, skipped_step, step_install,
    step_start_capture, step_stop_capture, step_verify, COLLECT_STEP, INSTALL_STEP, START_STEP,
    VERIFY_STEP,
};
use crate::text::{self, labelled, quoted};

verus! {

// ---------------------------------------------------------------------------
// Configuration
// ---------------------------------------------------------------------------

/// The directory, under the one for temporary files, where captured log files are placed
/// unless another is named.
pub const DEFAULT_OUTPUT_DIR: &'static str = "driver-test-logs";

/// Duration of the trace capture in seconds, unless another is named.
pub const DEFAULT_CAPTURE_DURATION: u32 = 30;

/// Configuration for a single smoketest pipeline run.
pub struct PipelineConfig {
    /// Path to the driver package directory (must contain .inf file).
    pub driver_package: String,
    /// Hyper-V VM name to target.
    pub vm_name: String,
    /// Optional credentials for PS Direct VM connections.
    pub credential: Option<VmCredential>,
    /// Skip the driver verification step.
    pub skip_verify: bool,
    /// Skip the trace capture step.
    pub skip_capture: bool,
    /// Duration in seconds for ETW trace capture.
    pub capture_duration: u32,
    /// If true, do not clean up temporary resources on completion.
    pub no_cleanup: bool,
    /// Host directory where captured log files will be placed.
    pub output_dir: String,
}

/// What a [`PipelineConfig`] holds.
pub struct ConfigView {
    pub driver_package: Seq<char>,
    pub vm_name: Seq<char>,
    pub credential: Option<CredentialView>,
    pub skip_verify: bool,
    pub skip_capture: bool,
    pub capture_duration: u32,
    pub no_cleanup: bool,
    pub output_dir: Seq<char>,
}

impl View for PipelineConfig {
    type V = ConfigView;

    open spec fn view(&self) -> ConfigView {
        ConfigView {
            driver_package: self.driver_package@,
            vm_name: self.vm_name@,
            credential: ps_runner::opt_credential(self.credential),
            skip_verify: self.skip_verify,
            skip_capture: self.skip_capture,
            capture_duration: self.capture_duration,
            no_cleanup: self.no_cleanup,
            output_dir: self.output_dir@,
        }
    }
}

/// The configuration of a run that nothing was said about.
pub open spec fn default_config(output_dir: Seq<char>) -> ConfigView {
    ConfigView {
        driver_package: Seq::empty(),
        vm_name: Seq::empty(),
        credential: None,
        skip_verify: false,
        skip_capture: false,
        capture_duration: DEFAULT_CAPTURE_DURATION,
        no_cleanup: false,
        output_dir,
    }
}

impl PipelineConfig {
    /// A configuration that names neither a package nor a VM, skips nothing, captures for
    /// 30 seconds and cleans up. The log files go to `output_dir`.
    pub fn default(output_dir: String) -> (config: PipelineConfig)
        ensures
            config@ == (ConfigView {
                driver_package: Seq::empty(),
                vm_name: Seq::empty(),
                credential: None,
                skip_verify: false,
                skip_capture: false,
                capture_duration: DEFAULT_CAPTURE_DURATION,
                no_cleanup: false,
                output_dir: output_dir@,
            }),
            config@ == default_config(output_dir@),
    {
        PipelineConfig {
            driver_package: String::new(),
            vm_name: String::new(),
            credential: None,
            skip_verify: false,
            skip_capture: false,
            capture_duration: DEFAULT_CAPTURE_DURATION,
            no_cleanup: false,
            output_dir,
        }
    }
}

// ---------------------------------------------------------------------------
// Events and actions
// ---------------------------------------------------------------------------

/// News for the pipeline.
pub enum PipelineEvent {
    /// A run is to begin.
    Begin,
    /// What came of the script.
    Script(Result<ScriptResult, PsRunnerError>),
    /// The capture period is over.
    Waited,
    /// Which copies of the captured files are there.
    Found(FoundFiles),
}

/// What a [`PipelineEvent`] holds.
pub enum EventView {
    Begin,
    Script(Outcome),
    Waited,
    Found(FoundFiles),
}

impl View for PipelineEvent {
    type V = EventView;

    open spec fn view(&self) -> EventView {
        match self {
            PipelineEvent::Begin => EventView::Begin,
            PipelineEvent::Script(outcome) => EventView::Script(ps_runner::outcome_of(*outcome)),
            PipelineEvent::Waited => EventView::Waited,
            PipelineEvent::Found(found) => EventView::Found(*found),
        }
    }
}

/// What to do next for the pipeline.
pub enum PipelineAction {
    /// Run this script.
    Run(ScriptJob),
    /// Wait for the capture period of so many seconds.
    Wait(u32),
    /// Look which of these copies are there on the host.
    Find(HostFiles),
    /// Nothing: the run is over, and this came of it.
    Done(SmoketestReport),
    /// Nothing new: the event did not answer what was to be done, and changed nothing.
    Unexpected,
}

/// What a [`PipelineAction`] holds.
pub enum ActionView {
    Run(JobView),
    Wait(u32),
    Find(HostFilesView),
    Done(ReportView),
    Unexpected,
}

impl View for PipelineAction {
    type V = ActionView;

    open spec fn view(&self) -> ActionView {
        match self {
            PipelineAction::Run(job) => ActionView::Run(job@),
            PipelineAction::Wait(secs) => ActionView::Wait(*secs),
            PipelineAction::Find(files) => ActionView::Find(files@),
            PipelineAction::Done(report) => ActionView::Done(report@),
            PipelineAction::Unexpected => ActionView::Unexpected,
        }
    }
}

// ---------------------------------------------------------------------------
// State
// ---------------------------------------------------------------------------

/// What the pipeline waits for.
enum Phase {
    /// For a run to begin.
    Idle,
    /// For the script that starts this session.
    Starting(CaptureSession),
    /// For the install script.
    Installing,
    /// For the verify script.
    Verifying,
    /// For the end of the capture period.
    Waiting,
    /// For the script that stops this session.
    Stopping(CaptureSession),
    /// For the script that copies the files of this session.
    Extracting(CaptureSession),
    /// For the copies of the files of this session.
    Finding(CaptureSession),
}

/// What the pipeline waits for.
pub enum PhaseView {
    Idle,
    Starting(SessionView),
    Installing,
    Verifying,
    Waiting,
    Stopping(SessionView),
    Extracting(SessionView),
    Finding(SessionView),
}

spec fn phase_of(phase: Phase) -> PhaseView {
    match phase {
        Phase::Idle => PhaseView::Idle,
        Phase::Starting(s) => PhaseView::Starting(s@),
        Phase::Installing => PhaseView::Installing,
        Phase::Verifying => PhaseView::Verifying,
        Phase::Waiting => PhaseView::Waiting,
        Phase::Stopping(s) => PhaseView::Stopping(s@),
        Phase::Extracting(s) => PhaseView::Extracting(s@),
        Phase::Finding(s) => PhaseView::Finding(s@),
    }
}

/// Orchestrates the smoketest pipeline steps in order and produces a report.
pub struct Pipeline {
    config: PipelineConfig,
    runner: PsRunner,
    driver_name: String,
    /// Active capture session, set when the step that starts it passes and consumed by the
    /// step that stops it.
    capture_session: Option<CaptureSession>,
    /// The results of the steps so far.
    steps: Vec<StepResult>,
    phase: Phase,
    /// The clock when the run began.
    started: Duration,
    /// The clock when the current step began.
    step_started: Duration,
}

/// What a [`Pipeline`] holds.
#[verifier::ext_equal]
pub struct PipelineView {
    pub config: ConfigView,
    pub scripts_dir: Seq<char>,
    pub driver_name: Seq<char>,
    pub session: Option<SessionView>,
    pub steps: Seq<StepView>,
    pub phase: PhaseView,
    pub started: nat,
    pub step_started: nat,
}

/// What an optional session holds.
pub open spec fn opt_session(s: Option<CaptureSession>) -> Option<SessionView> {
    match s {
        Some(s) => Some(s@),
        None => None,
    }
}

impl View for Pipeline {
    type V = PipelineView;

    closed spec fn view(&self) -> PipelineView {
        PipelineView {
            config: self.config@,
            scripts_dir: self.runner@,
            driver_name: self.driver_name@,
            session: opt_session(self.capture_session),
            steps: report::steps_of(self.steps@),
            phase: phase_of(self.phase),
            started: self.started@,
            step_started: self.step_started@,
        }
    }
}

// ---------------------------------------------------------------------------
// Construction
// ---------------------------------------------------------------------------

/// The name of the directory of the scripts: process and moment tell concurrent instances
/// apart.
pub open spec fn scripts_dir_of(pid: nat, nanos: nat) -> Seq<char> {
    "driver-test-cli-v2-scripts-"@ + numbers::decimal(pid) + "-"@ + numbers::digits(nanos, 16)
}

/// The name of the directory of the scripts, for the process `pid` at `nanos` nanoseconds
/// into the current second.
pub fn scripts_dir_name(pid: u32, nanos: u32) -> (name: String)
    ensures
        name@ == scripts_dir_of(pid as nat, nanos as nat),
{
    let mut name = labelled("driver-test-cli-v2-scripts-", &unsigned_to_string(pid as u64));
    name.append("-");
    name.append(render(nanos as u64, 16, 0).as_str());
    name
}

/// Two instances use one directory only when they are the same process at the same moment.
pub proof fn law_instances_do_not_share_scripts(
    pid: nat,
    nanos: nat,
    other_pid: nat,
    other_nanos: nat,
)
    requires
        scripts_dir_of(pid, nanos) == scripts_dir_of(other_pid, other_nanos),
    ensures
        pid == other_pid,
        nanos == other_nanos,
{
    reveal_strlit("-");
    let start = "driver-test-cli-v2-scripts-"@;
    let (a, b) = (numbers::decimal(pid), numbers::decimal(other_pid));
    let (x, y) = (numbers::digits(nanos, 16), numbers::digits(other_nanos, 16));
    let whole = scripts_dir_of(pid, nanos);
    numbers::lemma_decimal_digits(pid, 0);
    numbers::lemma_decimal_digits(other_pid, 0);
    assert(numbers::zero_padded(a, 0) == a);
    assert(numbers::zero_padded(b, 0) == b);
    assert(whole[start.len() as int + a.len()] == '-');
    assert(whole[start.len() as int + b.len()] == '-');
    if a.len() < b.len() {
        assert(whole[start.len() as int + a.len()] == b[a.len() as int]);
    } else if b.len() < a.len() {
        assert(whole[start.len() as int + b.len()] == a[b.len() as int]);
    }
    assert(a =~= whole.subrange(start.len() as int, (start.len() + a.len()) as int));
    assert(b =~= whole.subrange(start.len() as int, (start.len() + b.len()) as int));
    assert(x =~= whole.skip((start.len() + a.len() + 1) as int));
    assert(y =~= whole.skip((start.len() + b.len() + 1) as int));
    numbers::lemma_digits_value(pid, 10, 0);
    numbers::lemma_digits_value(other_pid, 10, 0);
    numbers::lemma_digits_value(nanos, 16, 0);
    numbers::lemma_digits_value(other_nanos, 16, 0);
}

/// The error for a runner that could not be made.
pub open spec fn runner_failure_of(e: PsRunnerErrorView) -> SmoketestErrorView {
    SmoketestErrorView::Io(
        match e {
            PsRunnerErrorView::Io(message) => message,
            _ => ps_runner::message_of(e),
        },
    )
}

/// The error for a runner that could not be made.
pub fn runner_failure(e: PsRunnerError) -> (error: SmoketestError)
    ensures
        error@ == runner_failure_of(e@),
{
    match e {
        PsRunnerError::Io(message) => SmoketestError::Io(message),
        _ => SmoketestError::Io(e.message()),
    }
}

/// A pipeline before its first run.
pub open spec fn fresh(config: ConfigView, scripts_dir: Seq<char>, driver: Seq<char>) -> PipelineView {
    PipelineView {
        config,
        scripts_dir,
        driver_name: driver,
        session: None,
        steps: Seq::empty(),
        phase: PhaseView::Idle,
        started: 0,
        step_started: 0,
    }
}

/// What becomes of a new pipeline: what is wrong with the package comes first, then what
/// is wrong with the runner.
pub open spec fn pipeline_of(
    config: ConfigView,
    package: PackageView,
    runner: Result<Seq<char>, PsRunnerErrorView>,
) -> Result<PipelineView, SmoketestErrorView> {
    match package::driver_in(config.driver_package, package) {
        Err(e) => Err(e),
        Ok(driver) => match runner {
            Err(e) => Err(runner_failure_of(e)),
            Ok(scripts_dir) => Ok(fresh(config, scripts_dir, driver)),
        },
    }
}

/// The directory of a runner, or why there is none.
pub open spec fn runner_dir(r: Result<PsRunner, PsRunnerError>) -> Result<
    Seq<char>,
    PsRunnerErrorView,
> {
    match r {
        Ok(runner) => Ok(runner@),
        Err(e) => Err(e@),
    }
}

/// Whether a pipeline that is done leaves no scripts behind.
pub open spec fn removes_scripts(p: PipelineView) -> bool {
    !p.config.no_cleanup
}

/// A pipeline as logs show it.
pub open spec fn logged(p: PipelineView) -> Seq<char> {
    "Pipeline { driver_name: "@ + text::debug_quoted(p.driver_name) + ", vm_name: "@
        + text::debug_quoted(p.config.vm_name) + ", .. }"@
}

impl Pipeline {
    /// Create a new pipeline, validating the driver package layout.
    ///
    /// The driver package directory must exist and contain at least one `.inf` file. The
    /// driver name is extracted from the first `.inf` filename found.
    pub fn new(
        config: PipelineConfig,
        package: &PackageDir,
        runner: Result<PsRunner, PsRunnerError>,
    ) -> (r: Result<Pipeline, SmoketestError>)
        ensures
            match r {
                Ok(p) => pipeline_of(config@, package@, runner_dir(runner)) == Ok::<
                    PipelineView,
                    SmoketestErrorView,
                >(p@),
                Err(e) => pipeline_of(config@, package@, runner_dir(runner)) == Err::<
                    PipelineView,
                    SmoketestErrorView,
                >(e@),
            },
    {
        let driver_name = match package_driver(config.driver_package.as_str(), package) {
            Ok(name) => name,
            Err(e) => {
                return Err(e);
            },
        };
        let runner = match runner {
            Ok(runner) => runner,
            Err(e) => {
                return Err(runner_failure(e));
            },
        };
        let p = Pipeline {
            config,
            runner,
            driver_name,
            capture_session: None,
            steps: Vec::new(),
            phase: Phase::Idle,
            started: Duration::zero(),
            step_started: Duration::zero(),
        };
        assert(p@.steps =~= Seq::empty());
        Ok(p)
    }

    /// The name of the driver under test.
    pub fn driver_name(&self) -> (name: &String)
        ensures
            name@ == self@.driver_name,
    {
        &self.driver_name
    }

    /// The runner of the scripts.
    pub fn runner(&self) -> (runner: &PsRunner)
        ensures
            runner@ == self@.scripts_dir,
    {
        &self.runner
    }

    /// Whether the directory of the scripts is to be removed when the pipeline is done.
    pub fn cleans_up(&self) -> (b: bool)
        ensures
            b == !self@.config.no_cleanup,
            b == removes_scripts(self@),
    {
        !self.config.no_cleanup
    }

    /// The pipeline as logs show it.
    pub fn debug_text(&self) -> (text: String)
        ensures
            text@ == "Pipeline { driver_name: "@ + text::debug_quoted(self@.driver_name)
                + ", vm_name: "@ + text::debug_quoted(self@.config.vm_name) + ", .. }"@,
            text@ == logged(self@),
    {
        let mut text = labelled("Pipeline { driver_name: ", &quoted(self.driver_name.as_str()));
        text.append(", vm_name: ");
        text.append(quoted(self.config.vm_name.as_str()).as_str());
        text.append(", .. }");
        text
    }

    /// A copy of the optional credential.
    fn credential(&self) -> (c: Option<VmCredential>)
        ensures
            ps_runner::opt_credential(c) == self@.config.credential,
    {
        match &self.config.credential {
            Some(c) => Some(c.clone()),
            None => None,
        }
    }
}

// ---------------------------------------------------------------------------
// Jobs
// ---------------------------------------------------------------------------

/// A known script that is pointed at the VM and the driver package.
pub open spec fn package_job(config: ConfigView, name: Seq<char>, secs: nat) -> JobView {
    JobView {
        name,
        content: None,
        args: seq!["-VMName"@, config.vm_name, "-DriverPath"@, config.driver_package],
        timeout: duration::seconds(secs),
        credential: config.credential,
        elevated: false,
    }
}

/// The script that installs the driver package.
pub open spec fn install_job(config: ConfigView) -> JobView {
    package_job(config, "Install-DriverOnVM.ps1"@, 120)
}

/// The script that verifies the driver.
pub open spec fn verify_job(config: ConfigView) -> JobView {
    package_job(config, "Verify-DriverOnVM.ps1"@, 60)
}

impl Pipeline {
    fn new_package_job(&self, name: &str, secs: u64) -> (job: ScriptJob)
        ensures
            job@ == package_job(self@.config, name@, secs as nat),
    {
        let mut args: Vec<String> = Vec::new();
        args.push("-VMName".to_owned());
        args.push(self.config.vm_name.clone());
        args.push("-DriverPath".to_owned());
        args.push(self.config.driver_package.clone());
        assert(text::texts(args@) =~= package_job(self@.config, name@, secs as nat).args);
        ScriptJob {
            name: name.to_owned(),
            content: None,
            args,
            timeout: Duration::from_secs(secs),
            credential: self.credential(),
            elevated: false,
        }
    }
}

// ---------------------------------------------------------------------------
// Transitions
// ---------------------------------------------------------------------------

/// `steps` with the ones that are missing given up for `reason`.
pub open spec fn filled(steps: Seq<StepView>, reason: Seq<char>) -> Seq<StepView> {
    steps + Seq::new(
        (4 - steps.len()) as nat,
        |i: int| steps::given_up(steps::step_names()[steps.len() + i], reason),
    )
}

/// The steps of a run that ended after `steps`: where a failure ended it, the others are
/// given up.
pub open spec fn completed_steps(steps: Seq<StepView>) -> Seq<StepView> {
    if steps.len() < 4 {
        filled(
            steps,
            if steps.len() == 0 {
                "unknown failure"@
            } else {
                steps::skip_reason(steps.last().status)
            },
        )
    } else {
        steps
    }
}

/// The report of a run of the driver `driver_name` that ended after `steps`.
pub open spec fn report_of(
    config: ConfigView,
    driver_name: Seq<char>,
    steps: Seq<StepView>,
    duration: nat,
) -> ReportView {
    let all = completed_steps(steps);
    ReportView {
        success: report::all_passed(all),
        vm_name: config.vm_name,
        driver: steps::driver_of(driver_name, all),
        steps: all,
        duration,
    }
}

/// The end of a run: the report, and a pipeline ready for another run.
pub open spec fn finish(p: PipelineView, now: nat) -> (PipelineView, ActionView) {
    (
        PipelineView { steps: Seq::empty(), phase: PhaseView::Idle, ..p },
        ActionView::Done(
            report_of(p.config, p.driver_name, p.steps, duration::since(now, p.started)),
        ),
    )
}

/// `p` with one more result.
pub open spec fn recorded(p: PipelineView, step: StepView) -> PipelineView {
    PipelineView { steps: p.steps.push(step), ..p }
}

/// The install step begins.
pub open spec fn to_install(p: PipelineView, now: nat) -> (PipelineView, ActionView) {
    (
        PipelineView { phase: PhaseView::Installing, step_started: now, ..p },
        ActionView::Run(install_job(p.config)),
    )
}

/// The install step is over: verification begins, unless it is skipped.
pub open spec fn to_verify(p: PipelineView, now: nat) -> (PipelineView, ActionView) {
    if p.config.skip_verify {
        to_wait(recorded(p, steps::skipped(VERIFY_STEP@)), now)
    } else {
        (
            PipelineView { phase: PhaseView::Verifying, step_started: now, ..p },
            ActionView::Run(verify_job(p.config)),
        )
    }
}

/// The verify step is over: the capture period runs, unless the capture is skipped.
pub open spec fn to_wait(p: PipelineView, now: nat) -> (PipelineView, ActionView) {
    if p.config.skip_capture {
        finish(recorded(p, steps::skipped(COLLECT_STEP@)), now)
    } else {
        (
            PipelineView { phase: PhaseView::Waiting, ..p },
            ActionView::Wait(p.config.capture_duration),
        )
    }
}

/// A run begins. Capture is started before the install, so that it records the driver
/// while it loads, unless it is skipped.
pub open spec fn to_start(p: PipelineView, now: nat, timestamp: Seq<char>) -> (
    PipelineView,
    ActionView,
) {
    let begun = PipelineView { steps: Seq::empty(), started: now, step_started: now, ..p };
    if p.config.skip_capture {
        to_install(recorded(begun, steps::skipped(START_STEP@)), now)
    } else {
        let session = capture::session_of(p.config.vm_name, p.config.output_dir, timestamp);
        (
            PipelineView { phase: PhaseView::Starting(session), ..begun },
            ActionView::Run(capture::start_job(session)),
        )
    }
}

/// The capture period is over: the session is taken and stopped.
pub open spec fn to_collect(p: PipelineView, now: nat) -> (PipelineView, ActionView) {
    match p.session {
        Some(session) => (
            PipelineView {
                session: None,
                phase: PhaseView::Stopping(session),
                step_started: now,
                ..p
            },
            ActionView::Run(capture::stop_job(session)),
        ),
        None => finish(recorded(p, steps::collect_result(None, 0)), now),
    }
}

/// The capture has come to its end with `r`.
pub open spec fn collected(
    p: PipelineView,
    r: Result<CaptureResultView, PsRunnerErrorView>,
    now: nat,
) -> (PipelineView, ActionView) {
    let step = steps::collect_result(Some(r), duration::since(now, p.step_started));
    finish(recorded(p, step), now)
}

/// What the pipeline does after `event`, at `now` on the clock; a session that it starts
/// takes its name from `timestamp`.
pub open spec fn run_step(p: PipelineView, event: EventView, now: nat, timestamp: Seq<char>) -> (
    PipelineView,
    ActionView,
) {
    let elapsed = duration::since(now, p.step_started);
    match (p.phase, event) {
        (PhaseView::Idle, EventView::Begin) => to_start(p, now, timestamp),
        (PhaseView::Starting(session), EventView::Script(o)) => {
            let failure = capture::completed(o);
            let next = recorded(p, steps::start_result(failure, elapsed));
            if failure is Some {
                finish(next, now)
            } else {
                to_install(PipelineView { session: Some(session), ..next }, now)
            }
        },
        (PhaseView::Installing, EventView::Script(o)) => {
            let next = recorded(p, steps::install_result(o, elapsed));
            if ps_runner::succeeded(o) {
                to_verify(next, now)
            } else {
                finish(next, now)
            }
        },
        (PhaseView::Verifying, EventView::Script(o)) => {
            let next = recorded(p, steps::verify_result(o, elapsed));
            if ps_runner::succeeded(o) {
                to_wait(next, now)
            } else {
                finish(next, now)
            }
        },
        (PhaseView::Waiting, EventView::Waited) => to_collect(p, now),
        (PhaseView::Stopping(session), EventView::Script(o)) => match capture::completed(o) {
            Some(e) => collected(p, Err(e), now),
            None => (
                PipelineView { phase: PhaseView::Extracting(session), ..p },
                ActionView::Run(capture::extract_job(session)),
            ),
        },
        (PhaseView::Extracting(session), EventView::Script(o)) => match capture::completed(o) {
            Some(e) => collected(p, Err(e), now),
            None => (
                PipelineView { phase: PhaseView::Finding(session), ..p },
                ActionView::Find(capture::host_files(session)),
            ),
        },
        (PhaseView::Finding(session), EventView::Found(found)) => collected(
            p,
            Ok(capture::found_files(session, found)),
            now,
        ),
        _ => (p, ActionView::Unexpected),
    }
}

impl Pipeline {
    fn record(&mut self, step: StepResult)
        ensures
            final(self)@ == recorded(old(self)@, step@),
    {
        self.steps.push(step);
        assert(self@.steps =~= old(self)@.steps.push(step@));
    }

    /// The results of the run, with the steps that are missing given up.
    fn take_steps(&mut self) -> (steps: Vec<StepResult>)
        ensures
            report::steps_of(steps@) == completed_steps(old(self)@.steps),
            final(self)@ == (PipelineView { steps: Seq::empty(), ..old(self)@ }),
    {
        let mut steps: Vec<StepResult> = Vec::new();
        std::mem::swap(&mut steps, &mut self.steps);
        assert(self@.steps =~= Seq::empty());
        let ghost before = report::steps_of(steps@);
        if steps.len() < 4 {
            let reason = if steps.len() == 0 {
                "unknown failure".to_owned()
            } else {
                reason_to_skip(&steps[steps.len() - 1].status)
            };
            let ghost whole = filled(before, reason@);
            assert(whole.take(before.len() as int) =~= before);
            while steps.len() < 4
                invariant
                    before.len() <= steps@.len() <= 4,
                    before.len() < 4,
                    whole == filled(before, reason@),
                    report::steps_of(steps@) == whole.take(steps@.len() as int),
                decreases 4 - steps.len(),
            {
                let name = if steps.len() == 0 {
                    START_STEP
                } else if steps.len() == 1 {
                    INSTALL_STEP
                } else if steps.len() == 2 {
                    VERIFY_STEP
                } else {
                    COLLECT_STEP
                };
                steps.push(given_up_step(name, &reason));
                assert(report::steps_of(steps@) =~= whole.take(steps@.len() as int));
            }
            assert(whole.take(4) =~= whole);
        }
        steps
    }

    fn finish(&mut self, now: Duration) -> (action: PipelineAction)
        ensures
            (final(self)@, action@) == finish(old(self)@, now@),
    {
        let steps = self.take_steps();
        self.phase = Phase::Idle;
        PipelineAction::Done(
            SmoketestReport {
                success: passed(&steps),
                vm_name: self.config.vm_name.clone(),
                driver: driver_info(&self.driver_name, &steps),
                steps,
                duration: now.since(&self.started),
            },
        )
    }

    fn to_install(&mut self, now: Duration) -> (action: PipelineAction)
        ensures
            (final(self)@, action@) == to_install(old(self)@, now@),
    {
        self.phase = Phase::Installing;
        self.step_started = now;
        PipelineAction::Run(self.new_package_job("Install-DriverOnVM.ps1", 120))
    }

    fn to_verify(&mut self, now: Duration) -> (action: PipelineAction)
        ensures
            (final(self)@, action@) == to_verify(old(self)@, now@),
    {
        if self.config.skip_verify {
            self.record(skipped_step(VERIFY_STEP));
            self.to_wait(now)
        } else {
            self.phase = Phase::Verifying;
            self.step_started = now;
            PipelineAction::Run(self.new_package_job("Verify-DriverOnVM.ps1", 60))
        }
    }

    fn to_wait(&mut self, now: Duration) -> (action: PipelineAction)
        ensures
            (final(self)@, action@) == to_wait(old(self)@, now@),
    {
        if self.config.skip_capture {
            self.record(skipped_step(COLLECT_STEP));
            self.finish(now)
        } else {
            self.phase = Phase::Waiting;
            PipelineAction::Wait(self.config.capture_duration)
        }
    }

    fn to_start(&mut self, now: Duration, timestamp: &str) -> (action: PipelineAction)
        ensures
            (final(self)@, action@) == to_start(old(self)@, now@, timestamp@),
    {
        self.steps = Vec::new();
        self.started = now;
        self.step_started = now;
        assert(self@.steps =~= Seq::empty());
        if self.config.skip_capture {
            self.record(skipped_step(START_STEP));
            self.to_install(now)
        } else {
            let config = CaptureConfig {
                vm_name: self.config.vm_name.clone(),
                capture_duration: self.config.capture_duration,
                output_dir: self.config.output_dir.clone(),
            };
            let (session, job) = start_capture_at(&config, timestamp);
            self.phase = Phase::Starting(session);
            PipelineAction::Run(job)
        }
    }

    fn to_collect(&mut self, now: Duration) -> (action: PipelineAction)
        ensures
            (final(self)@, action@) == to_collect(old(self)@, now@),
    {
        let mut session: Option<CaptureSession> = None;
        std::mem::swap(&mut session, &mut self.capture_session);
        match session {
            Some(session) => {
                self.step_started = now;
                let action = stop_and_extract(&session, CaptureEvent::Begin);
                self.phase = Phase::Stopping(session);
                match action {
                    CaptureAction::Stop(job) => PipelineAction::Run(job),
                    _ => PipelineAction::Unexpected,
                }
            },
            None => {
                self.record(step_stop_capture(None, Duration::zero()));
                self.finish(now)
            },
        }
    }

    fn collected(&mut self, r: Result<CaptureResult, PsRunnerError>, now: Duration) -> (action:
        PipelineAction)
        ensures
            (final(self)@, action@) == collected(old(self)@, capture::captured_of(r), now@),
    {
        let elapsed = now.since(&self.step_started);
        self.record(step_stop_capture(Some(r), elapsed));
        self.finish(now)
    }
}

impl Pipeline {
    /// Tells the pipeline of `event`, at `now` on a clock that only moves forward, and gives
    /// what to do next. A session that it starts takes its name from `timestamp`.
    #[verifier::rlimit(30)]
    pub fn run_at(&mut self, event: PipelineEvent, now: Duration, timestamp: &str) -> (action:
        PipelineAction)
        ensures
            (final(self)@, action@) == run_step(old(self)@, event@, now@, timestamp@),
    {
        let elapsed = now.since(&self.step_started);
        let mut phase = Phase::Idle;
        std::mem::swap(&mut phase, &mut self.phase);
        match (phase, event) {
            (Phase::Idle, PipelineEvent::Begin) => self.to_start(now, timestamp),
            (Phase::Starting(session), PipelineEvent::Script(outcome)) => {
                match capture_started(session, outcome) {
                    Ok(session) => {
                        self.record(step_start_capture(None, elapsed));
                        self.capture_session = Some(session);
                        self.to_install(now)
                    },
                    Err(e) => {
                        self.record(step_start_capture(Some(&e), elapsed));
                        self.finish(now)
                    },
                }
            },
            (Phase::Installing, PipelineEvent::Script(outcome)) => {
                let success = ran_to_success(&outcome);
                self.record(step_install(outcome, elapsed));
                if success {
                    self.to_verify(now)
                } else {
                    self.finish(now)
                }
            },
            (Phase::Verifying, PipelineEvent::Script(outcome)) => {
                let success = ran_to_success(&outcome);
                self.record(step_verify(outcome, elapsed));
                if success {
                    self.to_wait(now)
                } else {
                    self.finish(now)
                }
            },
            (Phase::Waiting, PipelineEvent::Waited) => self.to_collect(now),
            (Phase::Stopping(session), PipelineEvent::Script(outcome)) => {
                match stop_and_extract(&session, CaptureEvent::Stopped(outcome)) {
                    CaptureAction::Extract(job) => {
                        self.phase = Phase::Extracting(session);
                        PipelineAction::Run(job)
                    },
                    CaptureAction::Done(r) => self.collected(r, now),
                    _ => {
                        self.phase = Phase::Stopping(session);
                        PipelineAction::Unexpected
                    },
                }
            },
            (Phase::Extracting(session), PipelineEvent::Script(outcome)) => {
                match stop_and_extract(&session, CaptureEvent::Extracted(outcome)) {
                    CaptureAction::Find(files) => {
                        self.phase = Phase::Finding(session);
                        PipelineAction::Find(files)
                    },
                    CaptureAction::Done(r) => self.collected(r, now),
                    _ => {
                        self.phase = Phase::Extracting(session);
                        PipelineAction::Unexpected
                    },
                }
            },
            (Phase::Finding(session), PipelineEvent::Found(found)) => {
                match stop_and_extract(&session, CaptureEvent::Found(found)) {
                    CaptureAction::Done(r) => self.collected(r, now),
                    _ => {
                        self.phase = Phase::Finding(session);
                        PipelineAction::Unexpected
                    },
                }
            },
            (phase, _) => {
                self.phase = phase;
                PipelineAction::Unexpected
            },
        }
    }

    /// Tells the pipeline of `event`, at `now` on a clock that only moves forward, and gives
    /// what to do next on the way to a [`SmoketestReport`]. A session that it starts takes its
    /// name from the present moment.
    pub fn run(&mut self, event: PipelineEvent, now: Duration) -> (action: PipelineAction)
        ensures
            exists|t: Seq<char>| #[trigger]
                calendar::is_timestamp(t) && (final(self)@, action@) == run_step(
                    old(self)@,
                    event@,
                    now@,
                    t,
                ),
    {
        let timestamp = chrono_timestamp();
        self.run_at(event, now, timestamp.as_str())
    }
}

fn ran_to_success(outcome: &Result<ScriptResult, PsRunnerError>) -> (b: bool)
    ensures
        b == ps_runner::succeeded(ps_runner::outcome_of(*outcome)),
{
    match outcome {
        Ok(result) => result.success(),
        Err(_) => false,
    }
}

// ---------------------------------------------------------------------------
// Laws
// ---------------------------------------------------------------------------

/// The directory of the scripts tells whose it is.
pub proof fn law_scripts_directory_is_named(pid: nat, nanos: nat)
    ensures
        scripts_dir_of(pid, nanos) == "driver-test-cli-v2-scripts-"@ + numbers::decimal(pid) + "-"@
            + numbers::digits(nanos, 16),
{
}

/// An error of the system that kept a runner from being made is passed on as it is, any other by
/// what it says.
pub proof fn law_runner_failures_are_passed_on(e: PsRunnerErrorView)
    ensures
        e matches PsRunnerErrorView::Io(message) ==> runner_failure_of(e)
            == SmoketestErrorView::Io(message),
        !(e is Io) ==> runner_failure_of(e) == SmoketestErrorView::Io(ps_runner::message_of(e)),
{
}

/// Without a word to the contrary nothing is skipped, a capture runs for thirty seconds, and the
/// scripts are removed.
pub proof fn law_default_configuration(output_dir: Seq<char>)
    ensures
        ({
            let c = default_config(output_dir);
            &&& c.driver_package.len() == 0
            &&& c.vm_name.len() == 0
            &&& c.credential is None
            &&& !c.skip_verify && !c.skip_capture && !c.no_cleanup
            &&& c.capture_duration == 30
            &&& c.output_dir == output_dir
        }),
{
}

/// The scripts are removed exactly when the configuration does not ask to keep them, and logs
/// show the driver and the VM.
pub proof fn law_pipeline_is_cleaned_up_and_logged(p: PipelineView)
    ensures
        removes_scripts(p) <==> !p.config.no_cleanup,
        logged(p) == "Pipeline { driver_name: "@ + text::debug_quoted(p.driver_name)
            + ", vm_name: "@ + text::debug_quoted(p.config.vm_name) + ", .. }"@,
{
}

/// A capture runs for thirty seconds, and its files go to a directory of this name, unless the
/// command line says otherwise.
pub proof fn law_defaults()
    ensures
        DEFAULT_CAPTURE_DURATION == 30,
        DEFAULT_OUTPUT_DIR@ == "driver-test-logs"@,
{
}

} // verus!
