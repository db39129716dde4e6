//! What the outcome of each pipeline step means: its result in the report, and what it
//! tells about the driver.

use vstd::prelude::*;

use crate::capture::{self, CaptureResult, CaptureResultView};
use crate::details::{self, Details, Pairs};
use crate::duration::Duration;
use crate::extract::{self, extract_detail};
use crate::numbers::{self, signed_to_string};
use crate::ps_runner::{self, Outcome, PsRunnerError, PsRunnerErrorView, ScriptResult};
use crate::report::{self, DriverInfo, DriverView, StatusView, StepResult, StepStatus, StepView};
use crate::text::{self, labelled, trim_str};

verus! {

/// The name of the step that starts the capture.
pub const START_STEP: &'static str = "Starting log capture";

/// The name of the step that installs the driver.
pub const INSTALL_STEP: &'static str = "Installing driver package";

/// The name of the step that verifies the driver.
pub const VERIFY_STEP: &'static str = "Verifying driver on VM";

/// The name of the step that stops the capture.
pub const COLLECT_STEP: &'static str = "Collecting captured logs";

/// The names of the steps, in order.
pub open spec fn step_names() -> Seq<Seq<char>> {
    seq![START_STEP@, INSTALL_STEP@, VERIFY_STEP@, COLLECT_STEP@]
}

// ---------------------------------------------------------------------------
// Skipped steps
// ---------------------------------------------------------------------------

/// A step that was not asked for.
pub open spec fn skipped(name: Seq<char>) -> StepView {
    StepView {
        name,
        status: StatusView::Skipped,
        exit_code: None,
        duration: 0,
        details: Pairs::empty(),
        is_infra_failure: false,
    }
}

/// A step that was given up because an earlier one failed.
pub open spec fn given_up(name: Seq<char>, reason: Seq<char>) -> StepView {
    StepView { details: seq![("reason"@, reason)], ..skipped(name) }
}

/// Why the steps after `last` are given up.
pub open spec fn skip_reason(last: StatusView) -> Seq<char> {
    match last {
        StatusView::Fail(message) => "skipped due to prior failure: "@ + message,
        _ => "skipped"@,
    }
}

/// A step that was not asked for.
pub fn skipped_step(name: &str) -> (step: StepResult)
    ensures
        step@ == skipped(name@),
{
    StepResult {
        name: name.to_owned(),
        status: StepStatus::Skipped,
        exit_code: None,
        duration: Duration::zero(),
        details: Details::new(),
        is_infra_failure: false,
    }
}

/// A step that was given up because an earlier one failed.
pub fn given_up_step(name: &str, reason: &String) -> (step: StepResult)
    ensures
        step@ == given_up(name@, reason@),
{
    let details = one_detail("reason", reason.clone());
    StepResult {
        name: name.to_owned(),
        status: StepStatus::Skipped,
        exit_code: None,
        duration: Duration::zero(),
        details,
        is_infra_failure: false,
    }
}

/// Why the steps after one that ended with `last` are given up.
pub fn reason_to_skip(last: &StepStatus) -> (reason: String)
    ensures
        reason@ == skip_reason(last@),
{
    match last {
        StepStatus::Fail(message) => labelled("skipped due to prior failure: ", message),
        _ => "skipped".to_owned(),
    }
}

fn one_detail(key: &str, value: String) -> (d: Details)
    ensures
        d@ == seq![(key@, value@)],
{
    let mut d = Details::new();
    d.insert(key.to_owned(), value);
    assert(d@ =~= seq![(key@, value@)]);
    d
}

// ---------------------------------------------------------------------------
// Install and verify
// ---------------------------------------------------------------------------

/// Whether this exit code of the install script tells of the environment: the VM was not
/// found (2), the files could not be copied to it (3), or it did not answer in time (6).
pub open spec fn is_infra_exit(code: i32) -> bool {
    code == 2 || code == 3 || code == 6
}

/// The words that tell one script step from another.
pub struct ScriptWords {
    /// The name of the step.
    pub name: Seq<char>,
    /// What a non-zero exit code means.
    pub failed: Seq<char>,
    /// What a script that could not be run means.
    pub error: Seq<char>,
    /// What the script calls its main result.
    pub label: Seq<char>,
    /// The key under which the details hold that result.
    pub key: Seq<char>,
}

/// The words of the install step.
pub open spec fn install_words() -> ScriptWords {
    ScriptWords {
        name: INSTALL_STEP@,
        failed: "install failed (exit code "@,
        error: "install error: "@,
        label: "Published Name"@,
        key: "published_name"@,
    }
}

/// The words of the verify step.
pub open spec fn verify_words() -> ScriptWords {
    ScriptWords {
        name: VERIFY_STEP@,
        failed: "verification failed (exit code "@,
        error: "verify error: "@,
        label: "Device Status"@,
        key: "device_status"@,
    }
}

/// The result of a step whose script gave `o`: it passes with exit code 0. A script that
/// could not be run to its end is a failure of the environment; for a non-zero exit code
/// `infra_exit` tells whether it is one.
pub open spec fn script_step(
    words: ScriptWords,
    infra_exit: spec_fn(i32) -> bool,
    o: Outcome,
    duration: nat,
) -> StepView {
    match o {
        Ok(r) => if r.exit_code == 0 {
            StepView {
                name: words.name,
                status: StatusView::Pass,
                exit_code: Some(0),
                duration,
                details: match extract::value_in(r.stdout, words.label) {
                    Some(value) => seq![(words.key, value), ("stdout"@, r.stdout)],
                    None => seq![("stdout"@, r.stdout)],
                },
                is_infra_failure: false,
            }
        } else {
            StepView {
                name: words.name,
                status: StatusView::Fail(
                    words.failed + numbers::signed_decimal(r.exit_code as int) + "): "@
                        + text::trim_of(r.stderr),
                ),
                exit_code: Some(r.exit_code),
                duration,
                details: seq![("stdout"@, r.stdout)],
                is_infra_failure: infra_exit(r.exit_code),
            }
        },
        Err(e) => StepView {
            name: words.name,
            status: StatusView::Fail(words.error + ps_runner::message_of(e)),
            exit_code: None,
            duration,
            details: Pairs::empty(),
            is_infra_failure: true,
        },
    }
}

/// The result of the install step.
pub open spec fn install_result(o: Outcome, duration: nat) -> StepView {
    script_step(install_words(), |code: i32| is_infra_exit(code), o, duration)
}

/// The result of the verify step. Its script's exit codes tell of the driver only.
pub open spec fn verify_result(o: Outcome, duration: nat) -> StepView {
    script_step(verify_words(), |code: i32| false, o, duration)
}

/// The details of a script that succeeded.
fn script_details(stdout: &String, label: &str, key: &str) -> (d: Details)
    requires
        key@ != "stdout"@,
    ensures
        d@ == (match extract::value_in(stdout@, label@) {
            Some(value) => seq![(key@, value), ("stdout"@, stdout@)],
            None => seq![("stdout"@, stdout@)],
        }),
{
    let mut d = Details::new();
    proof {
        reveal_with_fuel(details::updated, 3);
    }
    if let Some(value) = extract_detail(stdout.as_str(), label) {
        d.insert(key.to_owned(), value);
    }
    d.insert("stdout".to_owned(), stdout.clone());
    assert(d@ =~= match extract::value_in(stdout@, label@) {
        Some(value) => seq![(key@, value), ("stdout"@, stdout@)],
        None => seq![("stdout"@, stdout@)],
    });
    d
}

/// What a script with a non-zero exit code failed with.
fn exit_message(failed: &str, result: &ScriptResult) -> (text: String)
    ensures
        text@ == failed@ + numbers::signed_decimal(result.exit_code as int) + "): "@
            + text::trim_of(result.stderr@),
{
    let mut text = labelled(failed, &signed_to_string(result.exit_code));
    text.append("): ");
    text.append(trim_str(result.stderr.as_str()).as_str());
    text
}

/// The result of the step that installs the driver package on the VM.
pub fn step_install(result: Result<ScriptResult, PsRunnerError>, duration: Duration) -> (step:
    StepResult)
    ensures
        step@ == install_result(ps_runner::outcome_of(result), duration@),
{
    match result {
        Ok(sr) => {
            if sr.success() {
                proof {
                    reveal_strlit("published_name");
                    reveal_strlit("stdout");
                    assert("published_name"@.len() != "stdout"@.len());
                }
                StepResult {
                    name: INSTALL_STEP.to_owned(),
                    status: StepStatus::Pass,
                    exit_code: Some(0),
                    duration,
                    details: script_details(&sr.stdout, "Published Name", "published_name"),
                    is_infra_failure: false,
                }
            } else {
                StepResult {
                    name: INSTALL_STEP.to_owned(),
                    status: StepStatus::Fail(exit_message("install failed (exit code ", &sr)),
                    exit_code: Some(sr.exit_code),
                    duration,
                    details: one_detail("stdout", sr.stdout),
                    is_infra_failure: sr.exit_code == 2 || sr.exit_code == 3 || sr.exit_code == 6,
                }
            }
        },
        Err(e) => StepResult {
            name: INSTALL_STEP.to_owned(),
            status: StepStatus::Fail(labelled("install error: ", &e.message())),
            exit_code: None,
            duration,
            details: Details::new(),
            is_infra_failure: true,
        },
    }
}

/// The result of the step that verifies the driver is correctly installed on the VM.
pub fn step_verify(result: Result<ScriptResult, PsRunnerError>, duration: Duration) -> (step:
    StepResult)
    ensures
        step@ == verify_result(ps_runner::outcome_of(result), duration@),
{
    match result {
        Ok(sr) => {
            if sr.success() {
                proof {
                    reveal_strlit("device_status");
                    reveal_strlit("stdout");
                    assert("device_status"@.len() != "stdout"@.len());
                }
                StepResult {
                    name: VERIFY_STEP.to_owned(),
                    status: StepStatus::Pass,
                    exit_code: Some(0),
                    duration,
                    details: script_details(&sr.stdout, "Device Status", "device_status"),
                    is_infra_failure: false,
                }
            } else {
                StepResult {
                    name: VERIFY_STEP.to_owned(),
                    status: StepStatus::Fail(exit_message("verification failed (exit code ", &sr)),
                    exit_code: Some(sr.exit_code),
                    duration,
                    details: one_detail("stdout", sr.stdout),
                    is_infra_failure: false,
                }
            }
        },
        Err(e) => StepResult {
            name: VERIFY_STEP.to_owned(),
            status: StepStatus::Fail(labelled("verify error: ", &e.message())),
            exit_code: None,
            duration,
            details: Details::new(),
            is_infra_failure: true,
        },
    }
}

// ---------------------------------------------------------------------------
// Capture
// ---------------------------------------------------------------------------

/// A capture step that failed: captures fail for reasons that lie in the environment.
pub open spec fn capture_failure(name: Seq<char>, message: Seq<char>, duration: nat) -> StepView {
    StepView {
        name,
        status: StatusView::Fail(message),
        exit_code: None,
        duration,
        details: Pairs::empty(),
        is_infra_failure: true,
    }
}

/// A capture step that passed.
pub open spec fn capture_success(name: Seq<char>, details: Pairs, duration: nat) -> StepView {
    StepView {
        name,
        status: StatusView::Pass,
        exit_code: Some(0),
        duration,
        details,
        is_infra_failure: false,
    }
}

/// The result of the step that starts the capture, when its script failed with `failure`.
pub open spec fn start_result(failure: Option<PsRunnerErrorView>, duration: nat) -> StepView {
    match failure {
        None => capture_success(START_STEP@, Pairs::empty(), duration),
        Some(e) => capture_failure(
            START_STEP@,
            "start capture error: "@ + ps_runner::message_of(e),
            duration,
        ),
    }
}

/// An entry under `key`, if there is a value.
pub open spec fn opt_pair(key: Seq<char>, value: Option<Seq<char>>) -> Pairs {
    match value {
        Some(v) => seq![(key, v)],
        None => Pairs::empty(),
    }
}

/// The files that a capture gave.
pub open spec fn capture_details(r: CaptureResultView) -> Pairs {
    seq![("output_dir"@, r.output_dir)] + opt_pair("dbgview_log"@, r.dbgview_log) + opt_pair(
        "etl_file"@,
        r.etl_file,
    ) + opt_pair("xml_file"@, r.xml_file) + opt_pair("summary_file"@, r.summary_file)
}

/// The result of the step that stops the capture; `None` stands for a capture that was
/// never started.
pub open spec fn collect_result(
    r: Option<Result<CaptureResultView, PsRunnerErrorView>>,
    duration: nat,
) -> StepView {
    match r {
        None => capture_failure(COLLECT_STEP@, "no active capture session to stop"@, duration),
        Some(Ok(files)) => capture_success(COLLECT_STEP@, capture_details(files), duration),
        Some(Err(e)) => capture_failure(
            COLLECT_STEP@,
            "stop/extract error: "@ + ps_runner::message_of(e),
            duration,
        ),
    }
}

fn failed_capture(name: &str, message: String, duration: Duration) -> (step: StepResult)
    ensures
        step@ == capture_failure(name@, message@, duration@),
{
    StepResult {
        name: name.to_owned(),
        status: StepStatus::Fail(message),
        exit_code: None,
        duration,
        details: Details::new(),
        is_infra_failure: true,
    }
}

/// The result of the step that starts DebugView + ETW capture on the VM, when it failed with
/// `failure`.
pub fn step_start_capture(failure: Option<&PsRunnerError>, duration: Duration) -> (step: StepResult)
    ensures
        step@ == start_result(
            match failure {
                Some(e) => Some(e@),
                None => None,
            },
            duration@,
        ),
{
    match failure {
        None => StepResult {
            name: START_STEP.to_owned(),
            status: StepStatus::Pass,
            exit_code: Some(0),
            duration,
            details: Details::new(),
            is_infra_failure: false,
        },
        Some(e) => failed_capture(
            START_STEP,
            labelled("start capture error: ", &e.message()),
            duration,
        ),
    }
}

/// Puts `value` under `key`, if there is a value and the key is new.
fn insert_opt(d: &mut Details, key: &str, value: &Option<String>)
    requires
        forall|i: int| 0 <= i < old(d)@.len() ==> (#[trigger] old(d)@[i]).0 != key@,
    ensures
        final(d)@ == old(d)@ + opt_pair(key@, text::opt_text(*value)),
{
    match value {
        Some(v) => {
            proof {
                lemma_updated_new(d@, key@, v@);
            }
            d.insert(key.to_owned(), v.clone());
        },
        None => {
            assert(d@ =~= old(d)@ + Pairs::empty());
        },
    }
}

proof fn lemma_updated_new(pairs: Pairs, key: Seq<char>, value: Seq<char>)
    requires
        forall|i: int| 0 <= i < pairs.len() ==> (#[trigger] pairs[i]).0 != key,
    ensures
        details::updated(pairs, key, value) == pairs + seq![(key, value)],
    decreases pairs.len(),
{
    if pairs.len() > 0 {
        let rest = pairs.drop_first();
        assert forall|i: int| 0 <= i < rest.len() implies (#[trigger] rest[i]).0 != key by {
            assert(rest[i] == pairs[i + 1]);
        }
        assert(pairs[0].0 != key);
        lemma_updated_new(rest, key, value);
    }
    assert(details::updated(pairs, key, value) =~= pairs + seq![(key, value)]);
}

fn list_files(r: &CaptureResult) -> (d: Details)
    ensures
        d@ == capture_details(r@),
{
    proof {
        reveal_strlit("output_dir");
        reveal_strlit("dbgview_log");
        reveal_strlit("etl_file");
        reveal_strlit("xml_file");
        reveal_strlit("summary_file");
        assert("etl_file"@[0] != "xml_file"@[0]);
        assert("output_dir"@.len() == 10);
        assert("dbgview_log"@.len() == 11);
        assert("etl_file"@.len() == 8);
        assert("xml_file"@.len() == 8);
        assert("summary_file"@.len() == 12);
    }
    let mut d = one_detail("output_dir", r.output_dir.clone());
    insert_opt(&mut d, "dbgview_log", &r.dbgview_log);
    insert_opt(&mut d, "etl_file", &r.etl_file);
    insert_opt(&mut d, "xml_file", &r.xml_file);
    insert_opt(&mut d, "summary_file", &r.summary_file);
    d
}

/// The result of the step that stops capture, decodes ETL, and copies artefacts to the
/// host; `None` stands for a capture that was never started.
pub fn step_stop_capture(
    result: Option<Result<CaptureResult, PsRunnerError>>,
    duration: Duration,
) -> (step: StepResult)
    ensures
        step@ == collect_result(
            match result {
                Some(r) => Some(capture::captured_of(r)),
                None => None,
            },
            duration@,
        ),
{
    match result {
        None => failed_capture(
            COLLECT_STEP,
            "no active capture session to stop".to_owned(),
            duration,
        ),
        Some(Ok(files)) => StepResult {
            name: COLLECT_STEP.to_owned(),
            status: StepStatus::Pass,
            exit_code: Some(0),
            duration,
            details: list_files(&files),
            is_infra_failure: false,
        },
        Some(Err(e)) => failed_capture(
            COLLECT_STEP,
            labelled("stop/extract error: ", &e.message()),
            duration,
        ),
    }
}

// ---------------------------------------------------------------------------
// Driver information
// ---------------------------------------------------------------------------

/// The later of two findings: `found` where there is one, else `known`.
pub open spec fn or_known(found: Option<Seq<char>>, known: Option<Seq<char>>) -> Option<Seq<char>> {
    if found is Some {
        found
    } else {
        known
    }
}

/// What a step that wrote `stdout` told under `label`.
pub open spec fn told(stdout: Option<Seq<char>>, label: Seq<char>) -> Option<Seq<char>> {
    match stdout {
        Some(s) => extract::value_in(s, label),
        None => None,
    }
}

/// What is known of the driver once a step with `details` has told what it found.
pub open spec fn informed(d: DriverView, details: Pairs) -> DriverView {
    let stdout = details::lookup(details, "stdout"@);
    DriverView {
        inf: d.inf,
        published_name: or_known(details::lookup(details, "published_name"@), d.published_name),
        version: or_known(told(stdout, "Version"@), d.version),
        provider: or_known(told(stdout, "Provider"@), d.provider),
        hardware_id: or_known(told(stdout, "Hardware ID"@), d.hardware_id),
        instance_id: or_known(told(stdout, "Instance ID"@), d.instance_id),
    }
}

/// What is known of the driver `name` after `steps`: for each field what the last step
/// that told of it found.
pub open spec fn driver_of(name: Seq<char>, steps: Seq<StepView>) -> DriverView
    decreases steps.len(),
{
    if steps.len() == 0 {
        DriverView {
            inf: name + ".inf"@,
            published_name: None,
            version: None,
            provider: None,
            hardware_id: None,
            instance_id: None,
        }
    } else {
        informed(driver_of(name, steps.drop_last()), steps.last().details)
    }
}

fn update(field: &mut Option<String>, found: Option<String>)
    ensures
        text::opt_text(*final(field)) == or_known(
            text::opt_text(found),
            text::opt_text(*old(field)),
        ),
{
    if found.is_some() {
        *field = found;
    }
}

fn inform(driver: &mut DriverInfo, details: &Details)
    ensures
        final(driver)@ == informed(old(driver)@, details@),
{
    if let Some(name) = details.get("published_name") {
        driver.published_name = Some(name.clone());
    }
    if let Some(stdout) = details.get("stdout") {
        update(&mut driver.version, extract_detail(stdout.as_str(), "Version"));
        update(&mut driver.provider, extract_detail(stdout.as_str(), "Provider"));
        update(&mut driver.hardware_id, extract_detail(stdout.as_str(), "Hardware ID"));
        update(&mut driver.instance_id, extract_detail(stdout.as_str(), "Instance ID"));
    }
}

/// What is known of the driver `name` after `steps`.
pub fn driver_info(name: &String, steps: &Vec<StepResult>) -> (driver: DriverInfo)
    ensures
        driver@ == driver_of(name@, report::steps_of(steps@)),
{
    let mut inf = name.clone();
    inf.append(".inf");
    let mut driver = DriverInfo {
        inf,
        published_name: None,
        version: None,
        provider: None,
        hardware_id: None,
        instance_id: None,
    };
    let ghost all = report::steps_of(steps@);
    let mut i: usize = 0;
    while i < steps.len()
        invariant
            all == report::steps_of(steps@),
            i <= steps@.len(),
            driver@ == driver_of(name@, all.take(i as int)),
        decreases steps@.len() - i,
    {
        proof {
            assert(all.take(i + 1).drop_last() =~= all.take(i as int));
            assert(all.take(i + 1).last() == steps@[i as int]@);
        }
        inform(&mut driver, &steps[i].details);
        i = i + 1;
    }
    assert(all.take(all.len() as int) =~= all);
    driver
}

/// What steps can tell about a driver.
pub enum DriverField {
    PublishedName,
    Version,
    Provider,
    HardwareId,
    InstanceId,
}

/// What a step with `details` found.
pub open spec fn finding(details: Pairs, field: DriverField) -> Option<Seq<char>> {
    let stdout = details::lookup(details, "stdout"@);
    match field {
        DriverField::PublishedName => details::lookup(details, "published_name"@),
        DriverField::Version => told(stdout, "Version"@),
        DriverField::Provider => told(stdout, "Provider"@),
        DriverField::HardwareId => told(stdout, "Hardware ID"@),
        DriverField::InstanceId => told(stdout, "Instance ID"@),
    }
}

/// What is known of a driver.
pub open spec fn known(d: DriverView, field: DriverField) -> Option<Seq<char>> {
    match field {
        DriverField::PublishedName => d.published_name,
        DriverField::Version => d.version,
        DriverField::Provider => d.provider,
        DriverField::HardwareId => d.hardware_id,
        DriverField::InstanceId => d.instance_id,
    }
}

/// What is known of a driver after all steps is what the last step that told of it found.
pub proof fn law_last_finding_counts(
    name: Seq<char>,
    steps: Seq<StepView>,
    field: DriverField,
    k: int,
)
    requires
        0 <= k < steps.len(),
        finding(steps[k].details, field) is Some,
        forall|i: int|
            k < i < steps.len() ==> finding((#[trigger] steps[i]).details, field) is None,
    ensures
        known(driver_of(name, steps), field) == finding(steps[k].details, field),
    decreases steps.len(),
{
    if k < steps.len() - 1 {
        let fewer = steps.drop_last();
        assert(finding(steps[steps.len() - 1].details, field) is None);
        assert forall|i: int| k < i < fewer.len() implies finding(
            (#[trigger] fewer[i]).details,
            field,
        ) is None by {
            assert(fewer[i] == steps[i]);
        }
        law_last_finding_counts(name, fewer, field, k);
    }
}

/// What no step told of stays unknown; the name of the manifest comes from the name of the
/// driver.
pub proof fn law_nothing_told_is_unknown(name: Seq<char>, steps: Seq<StepView>, field: DriverField)
    requires
        forall|i: int|
            0 <= i < steps.len() ==> finding((#[trigger] steps[i]).details, field) is None,
    ensures
        known(driver_of(name, steps), field) is None,
        driver_of(name, steps).inf == name + ".inf"@,
    decreases steps.len(),
{
    if steps.len() > 0 {
        let fewer = steps.drop_last();
        assert(finding(steps[steps.len() - 1].details, field) is None);
        assert forall|i: int| 0 <= i < fewer.len() implies finding(
            (#[trigger] fewer[i]).details,
            field,
        ) is None by {
            assert(fewer[i] == steps[i]);
        }
        law_nothing_told_is_unknown(name, fewer, field);
    }
}

// ---------------------------------------------------------------------------
// Laws of step results
// ---------------------------------------------------------------------------

/// The four steps have names of their own.
pub proof fn law_steps_have_their_names()
    ensures
        step_names().len() == 4,
        step_names()[0] == "Starting log capture"@,
        step_names()[1] == "Installing driver package"@,
        step_names()[2] == "Verifying driver on VM"@,
        step_names()[3] == "Collecting captured logs"@,
{
}

/// A skipped step neither passed nor failed, took no time and tells nothing, or only why it was
/// given up.
pub proof fn law_skipped_step_tells_nothing(name: Seq<char>, reason: Seq<char>)
    ensures
        ({
            let s = skipped(name);
            let g = given_up(name, reason);
            &&& s.name == name && g.name == name
            &&& s.status is Skipped && g.status is Skipped
            &&& s.exit_code is None && g.exit_code is None
            &&& s.duration == 0 && g.duration == 0
            &&& !s.is_infra_failure && !g.is_infra_failure
            &&& s.details.len() == 0
            &&& g.details.len() == 1
            &&& g.details[0] == ("reason"@, reason)
        }),
{
}

/// The failure that ended a run is the reason for which the later steps are given up.
pub proof fn law_reason_repeats_the_failure(message: Seq<char>)
    ensures
        skip_reason(StatusView::Fail(message)) == "skipped due to prior failure: "@ + message,
{
}

proof fn lemma_detail_names()
    ensures
        "stdout"@.len() == 6,
        "published_name"@.len() == 14,
        "device_status"@.len() == 13,
        "output_dir"@.len() == 10,
        "dbgview_log"@.len() == 11,
        "summary_file"@.len() == 12,
        "etl_file"@.len() == 8,
        "xml_file"@.len() == 8,
        "etl_file"@ != "xml_file"@,
{
    reveal_strlit("stdout");
    reveal_strlit("published_name");
    reveal_strlit("device_status");
    reveal_strlit("output_dir");
    reveal_strlit("dbgview_log");
    reveal_strlit("summary_file");
    reveal_strlit("etl_file");
    reveal_strlit("xml_file");
    assert("etl_file"@[0] != "xml_file"@[0]);
}

/// The verification passes exactly when its script exits with zero. Any other exit code is a
/// failure of the driver and never of the environment. The step tells the exit code and what
/// the script wrote either way.
pub proof fn law_verification_judges_the_driver(r: ps_runner::ScriptResultView, duration: nat)
    ensures
        ({
            let s = verify_result(Ok(r), duration);
            &&& s.name == "Verifying driver on VM"@
            &&& s.status is Pass <==> r.exit_code == 0
            &&& s.status is Fail <==> r.exit_code != 0
            &&& s.exit_code == Some(r.exit_code)
            &&& s.duration == duration
            &&& !s.is_infra_failure
            &&& details::lookup(s.details, "stdout"@) == Some(r.stdout)
            &&& s.status matches StatusView::Fail(message) ==> message
                == "verification failed (exit code "@ + numbers::signed_decimal(r.exit_code as int)
                + "): "@ + text::trim_of(r.stderr) && s.details.len() == 1
            &&& r.exit_code == 0 ==> details::lookup(s.details, "device_status"@)
                == extract::value_in(r.stdout, "Device Status"@)
        }),
{
    lemma_detail_names();
    reveal_with_fuel(details::lookup, 3);
    let s = verify_result(Ok(r), duration);
    assert(s.details.drop_first().drop_first() =~= Pairs::empty() || s.details.len() == 1);
    assert(s.details.len() == 1 ==> s.details.drop_first() =~= Pairs::empty());
}

/// The installation passes exactly when its script exits with zero. The codes for a VM that is
/// not there, that cannot be copied to or that does not answer tell of the environment; every
/// other code tells of the driver.
pub proof fn law_installation_tells_driver_from_environment(
    r: ps_runner::ScriptResultView,
    duration: nat,
)
    ensures
        ({
            let s = install_result(Ok(r), duration);
            &&& s.name == "Installing driver package"@
            &&& s.status is Pass <==> r.exit_code == 0
            &&& s.status is Fail <==> r.exit_code != 0
            &&& s.exit_code == Some(r.exit_code)
            &&& s.duration == duration
            &&& s.is_infra_failure <==> (r.exit_code == 2 || r.exit_code == 3 || r.exit_code == 6)
            &&& details::lookup(s.details, "stdout"@) == Some(r.stdout)
            &&& s.status matches StatusView::Fail(message) ==> message
                == "install failed (exit code "@ + numbers::signed_decimal(r.exit_code as int)
                + "): "@ + text::trim_of(r.stderr) && s.details.len() == 1
            &&& r.exit_code == 0 ==> details::lookup(s.details, "published_name"@)
                == extract::value_in(r.stdout, "Published Name"@)
        }),
{
    lemma_detail_names();
    reveal_with_fuel(details::lookup, 3);
    let s = install_result(Ok(r), duration);
    assert(s.details.drop_first().drop_first() =~= Pairs::empty() || s.details.len() == 1);
    assert(s.details.len() == 1 ==> s.details.drop_first() =~= Pairs::empty());
}

/// A script that did not run to its end fails its step for a reason in the environment, with no
/// exit code and no output, and the step says why.
pub proof fn law_script_that_did_not_end_lies_in_the_environment(
    e: PsRunnerErrorView,
    duration: nat,
)
    ensures
        ({
            let i = install_result(Err(e), duration);
            let v = verify_result(Err(e), duration);
            &&& i.status == StatusView::Fail("install error: "@ + ps_runner::message_of(e))
            &&& v.status == StatusView::Fail("verify error: "@ + ps_runner::message_of(e))
            &&& i.is_infra_failure && v.is_infra_failure
            &&& i.exit_code is None && v.exit_code is None
            &&& i.details.len() == 0 && v.details.len() == 0
            &&& i.duration == duration && v.duration == duration
            &&& i.name == "Installing driver package"@ && v.name == "Verifying driver on VM"@
        }),
{
}

/// Starting a capture passes exactly when nothing went wrong; what went wrong lies in the
/// environment.
pub proof fn law_capture_start_passes_or_lies_in_the_environment(
    failure: Option<PsRunnerErrorView>,
    duration: nat,
)
    ensures
        ({
            let s = start_result(failure, duration);
            &&& s.name == "Starting log capture"@
            &&& s.duration == duration
            &&& s.details.len() == 0
            &&& failure is None ==> s.status is Pass && s.exit_code == Some(0i32)
                && !s.is_infra_failure
            &&& failure matches Some(e) ==> s.status == StatusView::Fail(
                "start capture error: "@ + ps_runner::message_of(e),
            ) && s.exit_code is None && s.is_infra_failure
        }),
{
}

/// Collecting the logs passes exactly when there is a result of the capture, and then tells the
/// output directory and each file that the result has, under its own key and no other; a
/// capture that gave none lies in the environment.
pub proof fn law_collected_files_are_told(
    files: CaptureResultView,
    e: PsRunnerErrorView,
    duration: nat,
)
    ensures
        ({
            let s = collect_result(Some(Ok(files)), duration);
            let f = collect_result(Some(Err(e)), duration);
            let n = collect_result(None, duration);
            &&& s.name == "Collecting captured logs"@
            &&& s.status is Pass && s.exit_code == Some(0i32) && !s.is_infra_failure
            &&& s.duration == duration && f.duration == duration && n.duration == duration
            &&& details::lookup(s.details, "output_dir"@) == Some(files.output_dir)
            &&& details::lookup(s.details, "dbgview_log"@) == files.dbgview_log
            &&& details::lookup(s.details, "etl_file"@) == files.etl_file
            &&& details::lookup(s.details, "xml_file"@) == files.xml_file
            &&& details::lookup(s.details, "summary_file"@) == files.summary_file
            &&& f.name == s.name && n.name == s.name
            &&& f.status == StatusView::Fail("stop/extract error: "@ + ps_runner::message_of(e))
            &&& n.status == StatusView::Fail("no active capture session to stop"@)
            &&& f.is_infra_failure && n.is_infra_failure
            &&& f.exit_code is None && n.exit_code is None
            &&& f.details.len() == 0 && n.details.len() == 0
        }),
{
    lemma_detail_names();
    let a = seq![("output_dir"@, files.output_dir)];
    let b = a + opt_pair("dbgview_log"@, files.dbgview_log);
    let c = b + opt_pair("etl_file"@, files.etl_file);
    let d = c + opt_pair("xml_file"@, files.xml_file);
    lemma_lookup_one("output_dir"@, files.output_dir);
    lemma_lookup_appended(a, "dbgview_log"@, files.dbgview_log);
    lemma_lookup_appended(b, "etl_file"@, files.etl_file);
    lemma_lookup_appended(c, "xml_file"@, files.xml_file);
    lemma_lookup_appended(d, "summary_file"@, files.summary_file);
}

proof fn lemma_lookup_one(key: Seq<char>, value: Seq<char>)
    ensures
        forall|k: Seq<char>| #[trigger]
            details::lookup(seq![(key, value)], k) == (if k == key {
                Some(value)
            } else {
                None
            }),
{
    reveal_with_fuel(details::lookup, 2);
    assert(seq![(key, value)].drop_first() =~= Pairs::empty());
}

/// What is added behind all else is found under its own key, if nothing stood there, and
/// everything else as before.
proof fn lemma_lookup_appended(pairs: Pairs, key: Seq<char>, value: Option<Seq<char>>)
    ensures
        forall|k: Seq<char>| #[trigger]
            details::lookup(pairs + opt_pair(key, value), k) == (if k == key && details::lookup(
                pairs,
                k,
            ) is None {
                value
            } else {
                details::lookup(pairs, k)
            }),
    decreases pairs.len(),
{
    let all = pairs + opt_pair(key, value);
    if pairs.len() == 0 {
        assert(all =~= opt_pair(key, value));
        if let Some(v) = value {
            lemma_lookup_one(key, v);
        }
    } else {
        lemma_lookup_appended(pairs.drop_first(), key, value);
        assert(all.drop_first() =~= pairs.drop_first() + opt_pair(key, value));
        assert forall|k: Seq<char>| #[trigger] details::lookup(all, k) == (if k == key
            && details::lookup(pairs, k) is None {
            value
        } else {
            details::lookup(pairs, k)
        }) by {
            assert(details::lookup(pairs.drop_first() + opt_pair(key, value), k) == (if k == key
                && details::lookup(pairs.drop_first(), k) is None {
                value
            } else {
                details::lookup(pairs.drop_first(), k)
            }));
        }
    }
}

/// What a step tells about the driver stands under labels of the script's output, and the
/// published name among the details of the step.
pub proof fn law_findings_are_read_from_the_output(details: Pairs)
    ensures
        finding(details, DriverField::PublishedName) == details::lookup(
            details,
            "published_name"@,
        ),
        details::lookup(details, "stdout"@) matches Some(out) ==> {
            &&& finding(details, DriverField::Version) == extract::value_in(out, "Version"@)
            &&& finding(details, DriverField::Provider) == extract::value_in(out, "Provider"@)
            &&& finding(details, DriverField::HardwareId) == extract::value_in(out, "Hardware ID"@)
            &&& finding(details, DriverField::InstanceId) == extract::value_in(out, "Instance ID"@)
        },
        details::lookup(details, "stdout"@) is None ==> {
            &&& finding(details, DriverField::Version) is None
            &&& finding(details, DriverField::Provider) is None
            &&& finding(details, DriverField::HardwareId) is None
            &&& finding(details, DriverField::InstanceId) is None
        },
{
}

/// After an installation and a verification the driver has the published name that the
/// installation told, and of everything else what the verification told, or where it told
/// nothing what the installation told.
pub proof fn law_driver_is_told_by_its_scripts(
    name: Seq<char>,
    first: StepView,
    installed: ps_runner::ScriptResultView,
    verified: ps_runner::ScriptResultView,
    last: StepView,
    d: (nat, nat),
)
    requires
        installed.exit_code == 0,
        verified.exit_code == 0,
        details::lookup(first.details, "stdout"@) is None,
        details::lookup(first.details, "published_name"@) is None,
        details::lookup(last.details, "stdout"@) is None,
        details::lookup(last.details, "published_name"@) is None,
    ensures
        ({
            let steps = seq![
                first,
                install_result(Ok(installed), d.0),
                verify_result(Ok(verified), d.1),
                last,
            ];
            let driver = driver_of(name, steps);
            let told_by = |label: Seq<char>|
                match extract::value_in(verified.stdout, label) {
                    Some(v) => Some(v),
                    None => extract::value_in(installed.stdout, label),
                };
            &&& driver.inf == name + ".inf"@
            &&& driver.published_name == extract::value_in(installed.stdout, "Published Name"@)
            &&& driver.version == told_by("Version"@)
            &&& driver.provider == told_by("Provider"@)
            &&& driver.hardware_id == told_by("Hardware ID"@)
            &&& driver.instance_id == told_by("Instance ID"@)
        }),
{
    let i = install_result(Ok(installed), d.0);
    let v = verify_result(Ok(verified), d.1);
    let steps = seq![first, i, v, last];
    law_installation_tells_driver_from_environment(installed, d.0);
    law_verification_judges_the_driver(verified, d.1);
    lemma_detail_names();
    reveal_with_fuel(details::lookup, 3);
    assert(v.details.drop_first().drop_first() =~= Pairs::empty() || v.details.len() == 1);
    assert(v.details.len() == 1 ==> v.details.drop_first() =~= Pairs::empty());
    assert(details::lookup(v.details, "published_name"@) is None);
    reveal_with_fuel(driver_of, 5);
    assert(steps.drop_last() =~= seq![first, i, v]);
    assert(seq![first, i, v].drop_last() =~= seq![first, i]);
    assert(seq![first, i].drop_last() =~= seq![first]);
    assert(seq![first].drop_last() =~= Seq::<StepView>::empty());
}

} // verus!
