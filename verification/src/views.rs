//! Laws of views: the mathematical model of a value holds everything that the value holds, as it
//! is.

use vstd::prelude::*;

use crate::capture::{
    self, CaptureAction, CaptureActionView, CaptureEvent, CaptureEventView, CaptureResult,
    CaptureSession, GuestFiles, HostFiles,
};
use crate::error::{SmoketestError, SmoketestErrorView};
use crate::package::{PackageDir, PackageView};
use crate::pipeline::{
    self, ActionView, EventView, PipelineAction, PipelineConfig, PipelineEvent,
};
use crate::ps_runner::{
    self, Probe, ProbeView, ProcessExit, PsRunnerError, PsRunnerErrorView, RetryEvent,
    RetryEventView, RetryStep, RetryStepView, RunAction, RunActionView, RunEvent, RunEventView,
    ScriptJob, ScriptPaths, ScriptResult, VmCredential,
};
use crate::report::{self, DriverInfo, SmoketestReport, StatusView, StepResult, StepStatus};
use crate::text;

verus! {

/// Several texts are modelled one by one, and a text that may be missing is missing in its model
/// too.
pub proof fn law_texts(v: Seq<String>, o: Option<String>)
    ensures
        text::texts(v).len() == v.len(),
        forall|i: int| 0 <= i < v.len() ==> #[trigger] text::texts(v)[i] == v[i]@,
        o matches Some(s) ==> text::opt_text(o) == Some(s@),
        o is None ==> text::opt_text(o) is None,
{
}

/// The model of a credential.
pub proof fn law_credential(c: VmCredential)
    ensures
        c@.username == c.username@,
        c@.password == c.password@,
        ps_runner::opt_credential(Some(c)) == Some(c@),
        ps_runner::opt_credential(None) is None,
{
}

/// The model of a script's result, and of what came of a script.
pub proof fn law_script_result(r: ScriptResult, e: PsRunnerError)
    ensures
        r@.exit_code == r.exit_code,
        r@.stdout == r.stdout@,
        r@.stderr == r.stderr@,
        r@.duration == r.duration@,
        ps_runner::outcome_of(Ok(r)) == Ok::<ps_runner::ScriptResultView, PsRunnerErrorView>(r@),
        ps_runner::outcome_of(Err(e)) == Err::<ps_runner::ScriptResultView, PsRunnerErrorView>(e@),
{
}

/// The model of an error of a runner.
pub proof fn law_runner_error(e: PsRunnerError)
    ensures
        e matches PsRunnerError::Io(m) ==> e@ == PsRunnerErrorView::Io(m@),
        e matches PsRunnerError::ScriptNotFound(n) ==> e@ == PsRunnerErrorView::ScriptNotFound(n@),
        e matches PsRunnerError::Timeout(d) ==> e@ == PsRunnerErrorView::Timeout(d@),
        e matches PsRunnerError::ScriptFailed { exit_code, stderr } ==> e@
            == (PsRunnerErrorView::ScriptFailed { exit_code, stderr: stderr@ }),
        e matches PsRunnerError::RetriesExhausted(n) ==> e@ == PsRunnerErrorView::RetriesExhausted(
            n,
        ),
        e matches PsRunnerError::EmptyScript(n) ==> e@ == PsRunnerErrorView::EmptyScript(n@),
{
}

/// The model of a script to run and of where its files lie.
pub proof fn law_script_job(job: ScriptJob, paths: ScriptPaths)
    ensures
        job@.name == job.name@,
        job.content matches Some(c) ==> job@.content == Some(c@),
        job.content is None ==> job@.content is None,
        job@.args == text::texts(job.args@),
        job@.timeout == job.timeout@,
        job.credential matches Some(c) ==> job@.credential == Some(c@),
        job.credential is None ==> job@.credential is None,
        job@.elevated == job.elevated,
        paths@.script == paths.script@,
        paths@.stdout_file == paths.stdout_file@,
        paths@.stderr_file == paths.stderr_file@,
{
}

/// The model of how a process came to its end.
pub proof fn law_process_exit(exit: ProcessExit)
    ensures
        exit@.timed_out == exit.timed_out,
        exit@.code == exit.code,
        exit@.stdout == exit.stdout@,
        exit@.stderr == exit.stderr@,
        exit@.duration == exit.duration@,
{
}

/// The model of the events and actions of a script's run.
pub proof fn law_run_events(event: RunEvent, action: RunAction)
    ensures
        event matches RunEvent::Located(b) ==> event@ == RunEventView::Located(b),
        event matches RunEvent::AdminProbe(Some(v)) ==> event@ == RunEventView::AdminProbe(
            Some(v@),
        ),
        event matches RunEvent::AdminProbe(None) ==> event@ == RunEventView::AdminProbe(None),
        event matches RunEvent::Exited(exit) ==> event@ == RunEventView::Exited(exit@),
        event matches RunEvent::Failed(m) ==> event@ == RunEventView::Failed(m@),
        action is ProbeAdmin ==> action@ is ProbeAdmin,
        action matches RunAction::Spawn(args) ==> action@ == RunActionView::Spawn(
            text::texts(args@),
        ),
        action matches RunAction::Finished(o) ==> action@ == RunActionView::Finished(
            ps_runner::outcome_of(o),
        ),
{
}

/// The model of the events and steps of retries.
pub proof fn law_retry_events(event: RetryEvent, step: RetryStep)
    ensures
        event is Begin ==> event@ is Begin,
        event matches RetryEvent::Attempted(o) ==> event@ == RetryEventView::Attempted(
            ps_runner::outcome_of(o),
        ),
        step matches RetryStep::Attempt(d, job) ==> step@ == RetryStepView::Attempt(d@, job@),
        step matches RetryStep::Finished(o) ==> step@ == RetryStepView::Finished(
            ps_runner::outcome_of(o),
        ),
{
}

/// The model of what stands at the places where a script may lie, and of a driver package.
pub proof fn law_probes(probes: Seq<Probe>, package: PackageDir)
    ensures
        ps_runner::probes_of(probes).len() == probes.len(),
        forall|i: int|
            0 <= i < probes.len() ==> match #[trigger] probes[i] {
                Probe::Absent => ps_runner::probes_of(probes)[i] is Absent,
                Probe::Content(c) => ps_runner::probes_of(probes)[i] == ProbeView::Content(c@),
                Probe::Unreadable(m) => ps_runner::probes_of(probes)[i] == ProbeView::Unreadable(
                    m@,
                ),
            },
        package is Missing ==> package@ is Missing,
        package matches PackageDir::Unreadable(m) ==> package@ == PackageView::Unreadable(m@),
        package matches PackageDir::Entries(names) ==> package@ == PackageView::Entries(
            text::texts(names@),
        ),
{
}

/// The model of a step's result.
pub proof fn law_step_result(s: StepResult, v: Seq<StepResult>)
    ensures
        s@.name == s.name@,
        s.status is Pass ==> s@.status is Pass,
        s.status is Skipped ==> s@.status is Skipped,
        s.status matches StepStatus::Fail(m) ==> s@.status == StatusView::Fail(m@),
        s@.exit_code == s.exit_code,
        s@.duration == s.duration@,
        s@.details == s.details@,
        s@.is_infra_failure == s.is_infra_failure,
        report::steps_of(v).len() == v.len(),
        forall|i: int| 0 <= i < v.len() ==> #[trigger] report::steps_of(v)[i] == v[i]@,
{
}

/// The model of what is known of a driver.
pub proof fn law_driver_info(d: DriverInfo)
    ensures
        d@.inf == d.inf@,
        d@.published_name == text::opt_text(d.published_name),
        d@.version == text::opt_text(d.version),
        d@.provider == text::opt_text(d.provider),
        d@.hardware_id == text::opt_text(d.hardware_id),
        d@.instance_id == text::opt_text(d.instance_id),
{
}

/// The model of a report.
pub proof fn law_report(r: SmoketestReport)
    ensures
        r@.success == r.success,
        r@.vm_name == r.vm_name@,
        r@.driver == r.driver@,
        r@.steps == report::steps_of(r.steps@),
        r@.duration == r.duration@,
{
}

/// The model of a configuration.
pub proof fn law_configuration(c: PipelineConfig)
    ensures
        c@.driver_package == c.driver_package@,
        c@.vm_name == c.vm_name@,
        c.credential matches Some(credential) ==> c@.credential == Some(credential@),
        c.credential is None ==> c@.credential is None,
        c@.skip_verify == c.skip_verify,
        c@.skip_capture == c.skip_capture,
        c@.capture_duration == c.capture_duration,
        c@.no_cleanup == c.no_cleanup,
        c@.output_dir == c.output_dir@,
{
}

/// The model of the events and actions of a pipeline.
pub proof fn law_pipeline_events(event: PipelineEvent, action: PipelineAction)
    ensures
        event is Begin ==> event@ is Begin,
        event is Waited ==> event@ is Waited,
        event matches PipelineEvent::Script(o) ==> event@ == EventView::Script(
            ps_runner::outcome_of(o),
        ),
        event matches PipelineEvent::Found(found) ==> event@ == EventView::Found(found),
        action matches PipelineAction::Run(job) ==> action@ == ActionView::Run(job@),
        action matches PipelineAction::Wait(secs) ==> action@ == ActionView::Wait(secs),
        action matches PipelineAction::Find(files) ==> action@ == ActionView::Find(files@),
        action matches PipelineAction::Done(report) ==> action@ == ActionView::Done(report@),
        action is Unexpected ==> action@ is Unexpected,
{
}

/// The model of a capture session.
pub proof fn law_session(s: CaptureSession)
    ensures
        s@.vm_name == s.vm_name@,
        s@.etw_session_name == s.etw_session_name@,
        s@.guest_log_dir == s.guest_log_dir@,
        s@.guest_dbgview_log == s.guest_dbgview_log@,
        s@.guest_etl_path == s.guest_etl_path@,
        s@.output_dir == s.output_dir@,
        pipeline::opt_session(Some(s)) == Some(s@),
        pipeline::opt_session(None) is None,
{
}

/// The model of the files of a capture, on the guest, on the host and in its result.
pub proof fn law_capture_files(guest: GuestFiles, host: HostFiles, r: CaptureResult)
    ensures
        guest@.dbgview_log == guest.dbgview_log@,
        guest@.etl_file == guest.etl_file@,
        guest@.xml_file == guest.xml_file@,
        guest@.summary_file == guest.summary_file@,
        host@.dbgview_log == host.dbgview_log@,
        host@.etl_file == host.etl_file@,
        host@.xml_file == host.xml_file@,
        host@.summary_file == host.summary_file@,
        r@.dbgview_log == text::opt_text(r.dbgview_log),
        r@.etl_file == text::opt_text(r.etl_file),
        r@.xml_file == text::opt_text(r.xml_file),
        r@.summary_file == text::opt_text(r.summary_file),
        r@.output_dir == r.output_dir@,
{
}

/// The model of the events and actions of a capture that is stopped.
pub proof fn law_capture_events(event: CaptureEvent, action: CaptureAction)
    ensures
        event is Begin ==> event@ is Begin,
        event matches CaptureEvent::Stopped(o) ==> event@ == CaptureEventView::Stopped(
            ps_runner::outcome_of(o),
        ),
        event matches CaptureEvent::Extracted(o) ==> event@ == CaptureEventView::Extracted(
            ps_runner::outcome_of(o),
        ),
        event matches CaptureEvent::Found(found) ==> event@ == CaptureEventView::Found(found),
        action matches CaptureAction::Stop(job) ==> action@ == CaptureActionView::Stop(job@),
        action matches CaptureAction::Extract(job) ==> action@ == CaptureActionView::Extract(job@),
        action matches CaptureAction::Find(files) ==> action@ == CaptureActionView::Find(files@),
        action matches CaptureAction::Done(r) ==> action@ == CaptureActionView::Done(
            match r {
                Ok(result) => Ok(result@),
                Err(e) => Err(e@),
            },
        ),
        action matches CaptureAction::Done(r) ==> capture::captured_of(r) == (match r {
            Ok(result) => Ok(result@),
            Err(e) => Err(e@),
        }),
{
}

/// The model of an error of the program.
pub proof fn law_error(e: SmoketestError)
    ensures
        e matches SmoketestError::PackageValidation { reason } ==> e@
            == (SmoketestErrorView::PackageValidation { reason: reason@ }),
        e matches SmoketestError::VmNotFound { name } ==> e@ == (SmoketestErrorView::VmNotFound {
            name: name@,
        }),
        e matches SmoketestError::VmNotRunning { name, state } ==> e@
            == (SmoketestErrorView::VmNotRunning { name: name@, state: state@ }),
        e matches SmoketestError::ScriptExecution { script, exit_code, stderr } ==> e@
            == (SmoketestErrorView::ScriptExecution { script: script@, exit_code, stderr: stderr@ }),
        e matches SmoketestError::ScriptTimeout { script, timeout_secs } ==> e@
            == (SmoketestErrorView::ScriptTimeout { script: script@, timeout_secs }),
        e matches SmoketestError::DriverInstallFailed { install_exit_code, detail } ==> e@
            == (SmoketestErrorView::DriverInstallFailed { install_exit_code, detail: detail@ }),
        e matches SmoketestError::DriverVerificationFailed { reason } ==> e@
            == (SmoketestErrorView::DriverVerificationFailed { reason: reason@ }),
        e matches SmoketestError::SnapshotFailed { reason } ==> e@
            == (SmoketestErrorView::SnapshotFailed { reason: reason@ }),
        e matches SmoketestError::CaptureFailed { reason } ==> e@
            == (SmoketestErrorView::CaptureFailed { reason: reason@ }),
        e matches SmoketestError::Io(m) ==> e@ == SmoketestErrorView::Io(m@),
{
}

} // verus!
