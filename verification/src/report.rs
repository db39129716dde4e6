//! Report types and rendering for driver smoketest results: a document for machines and a
//! summary for human readers.

use vstd::prelude::*;

use crate::details::{self, Details, Pairs};
use crate::duration::Duration;
use crate::error::{EXIT_INFRA_ERROR, EXIT_SUCCESS, EXIT_TEST_FAILURE};
use crate::json::{
    self, bool_value, list_value, null_value, number_value, object_value, optional_text, push_member,
    seconds_value, text_value, to_string_pretty, JsonView,
};
use crate::numbers::{self, unsigned_to_string};
use crate::text::{self, copy_opt, join, labelled};

verus! {

// ---------------------------------------------------------------------------
// Types
// ---------------------------------------------------------------------------

/// Outcome of a single pipeline step.
#[derive(Debug)]
pub enum StepStatus {
    Pass,
    Fail(String),
    Skipped,
}

/// What a [`StepStatus`] says.
pub enum StatusView {
    Pass,
    Fail(Seq<char>),
    Skipped,
}

impl View for StepStatus {
    type V = StatusView;

    open spec fn view(&self) -> StatusView {
        match self {
            StepStatus::Pass => StatusView::Pass,
            StepStatus::Fail(message) => StatusView::Fail(message@),
            StepStatus::Skipped => StatusView::Skipped,
        }
    }
}

impl Clone for StepStatus {
    fn clone(&self) -> (s: StepStatus)
        ensures
            s@ == self@,
    {
        match self {
            StepStatus::Pass => StepStatus::Pass,
            StepStatus::Fail(message) => StepStatus::Fail(message.clone()),
            StepStatus::Skipped => StepStatus::Skipped,
        }
    }
}

/// Result captured for one pipeline step (install, verify, ...).
#[derive(Debug)]
pub struct StepResult {
    pub name: String,
    pub status: StepStatus,
    pub exit_code: Option<i32>,
    pub duration: Duration,
    pub details: Details,
    /// When `true`, this step failure represents an infrastructure problem
    /// (VM unreachable, timeout, PS Direct error) rather than a test-logic failure.
    pub is_infra_failure: bool,
}

/// What a [`StepResult`] holds.
#[verifier::ext_equal]
pub struct StepView {
    pub name: Seq<char>,
    pub status: StatusView,
    pub exit_code: Option<i32>,
    pub duration: nat,
    pub details: Pairs,
    pub is_infra_failure: bool,
}

impl View for StepResult {
    type V = StepView;

    open spec fn view(&self) -> StepView {
        StepView {
            name: self.name@,
            status: self.status@,
            exit_code: self.exit_code,
            duration: self.duration@,
            details: self.details@,
            is_infra_failure: self.is_infra_failure,
        }
    }
}

impl Clone for StepResult {
    fn clone(&self) -> (s: StepResult)
        ensures
            s@ == self@,
    {
        StepResult {
            name: self.name.clone(),
            status: self.status.clone(),
            exit_code: self.exit_code,
            duration: self.duration,
            details: self.details.clone(),
            is_infra_failure: self.is_infra_failure,
        }
    }
}

/// What several step results hold.
pub open spec fn steps_of(v: Seq<StepResult>) -> Seq<StepView> {
    Seq::new(v.len(), |i: int| v[i]@)
}

/// Metadata about the driver under test.
#[derive(Debug)]
pub struct DriverInfo {
    pub inf: String,
    pub published_name: Option<String>,
    pub version: Option<String>,
    pub provider: Option<String>,
    pub hardware_id: Option<String>,
    pub instance_id: Option<String>,
}

/// What a [`DriverInfo`] holds.
pub struct DriverView {
    pub inf: Seq<char>,
    pub published_name: Option<Seq<char>>,
    pub version: Option<Seq<char>>,
    pub provider: Option<Seq<char>>,
    pub hardware_id: Option<Seq<char>>,
    pub instance_id: Option<Seq<char>>,
}

impl View for DriverInfo {
    type V = DriverView;

    open spec fn view(&self) -> DriverView {
        DriverView {
            inf: self.inf@,
            published_name: text::opt_text(self.published_name),
            version: text::opt_text(self.version),
            provider: text::opt_text(self.provider),
            hardware_id: text::opt_text(self.hardware_id),
            instance_id: text::opt_text(self.instance_id),
        }
    }
}

impl Clone for DriverInfo {
    fn clone(&self) -> (d: DriverInfo)
        ensures
            d@ == self@,
    {
        DriverInfo {
            inf: self.inf.clone(),
            published_name: copy_opt(&self.published_name),
            version: copy_opt(&self.version),
            provider: copy_opt(&self.provider),
            hardware_id: copy_opt(&self.hardware_id),
            instance_id: copy_opt(&self.instance_id),
        }
    }
}

/// Top-level report for a complete smoketest run.
#[derive(Debug)]
pub struct SmoketestReport {
    pub success: bool,
    pub vm_name: String,
    pub driver: DriverInfo,
    pub steps: Vec<StepResult>,
    pub duration: Duration,
}

/// What a [`SmoketestReport`] holds.
pub struct ReportView {
    pub success: bool,
    pub vm_name: Seq<char>,
    pub driver: DriverView,
    pub steps: Seq<StepView>,
    pub duration: nat,
}

impl View for SmoketestReport {
    type V = ReportView;

    open spec fn view(&self) -> ReportView {
        ReportView {
            success: self.success,
            vm_name: self.vm_name@,
            driver: self.driver@,
            steps: steps_of(self.steps@),
            duration: self.duration@,
        }
    }
}

impl Clone for SmoketestReport {
    fn clone(&self) -> (r: SmoketestReport)
        ensures
            r@ == self@,
    {
        let mut steps: Vec<StepResult> = Vec::new();
        let mut i: usize = 0;
        while i < self.steps.len()
            invariant
                i <= self.steps@.len(),
                steps_of(steps@) == self@.steps.take(i as int),
            decreases self.steps@.len() - i,
        {
            let ghost before = steps@;
            steps.push(self.steps[i].clone());
            assert(steps_of(steps@) =~= steps_of(before).push(self@.steps[i as int]));
            i = i + 1;
        }
        assert(steps_of(steps@) =~= self@.steps);
        SmoketestReport {
            success: self.success,
            vm_name: self.vm_name.clone(),
            driver: self.driver.clone(),
            steps,
            duration: self.duration,
        }
    }
}

// ---------------------------------------------------------------------------
// Verdict
// ---------------------------------------------------------------------------

/// Whether no step failed: every step that was not skipped passed.
pub open spec fn all_passed(steps: Seq<StepView>) -> bool {
    forall|i: int| 0 <= i < steps.len() ==> !((#[trigger] steps[i]).status is Fail)
}

/// Whether a step failed for a reason that lies in the environment.
pub open spec fn any_infra_failure(steps: Seq<StepView>) -> bool {
    exists|i: int|
        0 <= i < steps.len() && (#[trigger] steps[i]).is_infra_failure && steps[i].status is Fail
}

/// The process exit code for the steps of a run.
pub open spec fn exit_code_of(steps: Seq<StepView>) -> i32 {
    if all_passed(steps) {
        EXIT_SUCCESS
    } else if any_infra_failure(steps) {
        EXIT_INFRA_ERROR
    } else {
        EXIT_TEST_FAILURE
    }
}

/// Whether no step failed.
pub fn passed(steps: &Vec<StepResult>) -> (b: bool)
    ensures
        b == all_passed(steps_of(steps@)),
{
    let mut i: usize = 0;
    while i < steps.len()
        invariant
            i <= steps@.len(),
            forall|k: int| 0 <= k < i ==> !((#[trigger] steps_of(steps@)[k]).status is Fail),
        decreases steps@.len() - i,
    {
        if let StepStatus::Fail(_) = steps[i].status {
            assert(steps_of(steps@)[i as int].status is Fail);
            return false;
        }
        i = i + 1;
    }
    true
}

impl SmoketestReport {
    /// Returns `true` if any step failure is classified as an infrastructure
    /// error (VM unreachable, timeout, PS Direct failure, etc.).
    pub fn has_infra_failure(&self) -> (b: bool)
        ensures
            b == any_infra_failure(self@.steps),
    {
        let mut i: usize = 0;
        while i < self.steps.len()
            invariant
                i <= self.steps@.len(),
                forall|k: int|
                    0 <= k < i ==> !((#[trigger] self@.steps[k]).is_infra_failure
                        && self@.steps[k].status is Fail),
            decreases self.steps@.len() - i,
        {
            if self.steps[i].is_infra_failure {
                if let StepStatus::Fail(_) = self.steps[i].status {
                    assert(self@.steps[i as int].is_infra_failure);
                    return true;
                }
            }
            i = i + 1;
        }
        false
    }

    /// Returns `true` when every non-skipped step passed.
    pub fn is_success(&self) -> (b: bool)
        ensures
            b == all_passed(self@.steps),
    {
        passed(&self.steps)
    }

    /// The process exit code for the run: 0 when it passed, 2 when the environment failed,
    /// else 1.
    pub fn exit_code(&self) -> (code: i32)
        ensures
            code == exit_code_of(self@.steps),
    {
        if self.is_success() {
            EXIT_SUCCESS
        } else if self.has_infra_failure() {
            EXIT_INFRA_ERROR
        } else {
            EXIT_TEST_FAILURE
        }
    }
}

// ---------------------------------------------------------------------------
// JSON document
// ---------------------------------------------------------------------------

/// The JSON value of a step status: an object with the tag `status`, and `message` for a
/// failure.
pub open spec fn status_document(s: StatusView) -> JsonView {
    JsonView::Object(
        match s {
            StatusView::Pass => seq![("status"@, JsonView::Text("Pass"@))],
            StatusView::Fail(message) => seq![
                ("status"@, JsonView::Text("Fail"@)),
                ("message"@, JsonView::Text(message)),
            ],
            StatusView::Skipped => seq![("status"@, JsonView::Text("Skipped"@))],
        },
    )
}

/// The JSON members for the details of a step.
pub open spec fn details_members(pairs: Pairs) -> Seq<(Seq<char>, JsonView)> {
    pairs.map_values(|p: (Seq<char>, Seq<char>)| (p.0, JsonView::Text(p.1)))
}

/// The JSON value of an exit code, if there is one.
pub open spec fn exit_code_document(code: Option<i32>) -> JsonView {
    match code {
        Some(c) => JsonView::Number(c as int),
        None => JsonView::Null,
    }
}

/// The JSON value of a step.
pub open spec fn step_document(s: StepView) -> JsonView {
    JsonView::Object(
        seq![
            ("name"@, JsonView::Text(s.name)),
            ("status"@, status_document(s.status)),
            ("exit_code"@, exit_code_document(s.exit_code)),
            ("duration"@, json::seconds_of(s.duration)),
            ("details"@, JsonView::Object(details_members(s.details))),
            ("is_infra_failure"@, JsonView::Bool(s.is_infra_failure)),
        ],
    )
}

/// The JSON value of the driver metadata.
pub open spec fn driver_document(d: DriverView) -> JsonView {
    JsonView::Object(
        seq![
            ("inf"@, JsonView::Text(d.inf)),
            ("published_name"@, json::text_or_null(d.published_name)),
            ("version"@, json::text_or_null(d.version)),
            ("provider"@, json::text_or_null(d.provider)),
            ("hardware_id"@, json::text_or_null(d.hardware_id)),
            ("instance_id"@, json::text_or_null(d.instance_id)),
        ],
    )
}

/// The JSON value of a report.
pub open spec fn report_document(r: ReportView) -> JsonView {
    JsonView::Object(
        seq![
            ("success"@, JsonView::Bool(r.success)),
            ("vm_name"@, JsonView::Text(r.vm_name)),
            ("driver"@, driver_document(r.driver)),
            ("steps"@, JsonView::List(r.steps.map_values(|s: StepView| step_document(s)))),
            ("duration"@, json::seconds_of(r.duration)),
        ],
    )
}

impl StepStatus {
    /// The JSON value of the status.
    pub fn document(&self) -> (v: serde_json::Value)
        ensures
            json::held_by(v) == status_document(self@),
    {
        let mut members: Vec<(String, serde_json::Value)> = Vec::new();
        match self {
            StepStatus::Pass => {
                push_member(&mut members, "status", text_value("Pass".to_owned()));
            },
            StepStatus::Fail(message) => {
                push_member(&mut members, "status", text_value("Fail".to_owned()));
                push_member(&mut members, "message", text_value(message.clone()));
            },
            StepStatus::Skipped => {
                push_member(&mut members, "status", text_value("Skipped".to_owned()));
            },
        }
        proof {
            reveal_strlit("status");
            reveal_strlit("message");
            assert("status"@.len() != "message"@.len());
            assert(json::members_of(members@) =~= status_document(self@)->Object_0);
        }
        object_value(members)
    }
}

/// The JSON value of the details of a step.
fn details_value(d: &Details) -> (v: serde_json::Value)
    ensures
        json::held_by(v) == JsonView::Object(details_members(d@)),
{
    let mut members: Vec<(String, serde_json::Value)> = Vec::new();
    let n: usize = d.len();
    let mut i: usize = 0;
    while i < n
        invariant
            i <= n == d@.len(),
            json::members_of(members@) == details_members(d@.take(i as int)),
        decreases d@.len() - i,
    {
        let (key, value) = d.entry(i);
        push_member(&mut members, key.as_str(), text_value(value.clone()));
        assert(details_members(d@.take(i + 1)) =~= details_members(d@.take(i as int)).push(
            (d@[i as int].0, JsonView::Text(d@[i as int].1)),
        ));
        i = i + 1;
    }
    proof {
        assert(d@.take(d@.len() as int) =~= d@);
        let all = details_members(d@);
        assert forall|i: int, j: int| 0 <= i < j < all.len() implies (#[trigger] all[i]).0 != (
        #[trigger] all[j]).0 by {
            assert(d@[i].0 != d@[j].0);
        }
    }
    object_value(members)
}

impl StepResult {
    /// The JSON value of the step.
    pub fn document(&self) -> (v: serde_json::Value)
        ensures
            json::held_by(v) == step_document(self@),
    {
        let mut members: Vec<(String, serde_json::Value)> = Vec::new();
        push_member(&mut members, "name", text_value(self.name.clone()));
        push_member(&mut members, "status", self.status.document());
        let code = match self.exit_code {
            Some(c) => number_value(c),
            None => null_value(),
        };
        push_member(&mut members, "exit_code", code);
        push_member(&mut members, "duration", seconds_value(&self.duration));
        push_member(&mut members, "details", details_value(&self.details));
        push_member(&mut members, "is_infra_failure", bool_value(self.is_infra_failure));
        proof {
            assert(json::members_of(members@) =~= step_document(self@)->Object_0);
            lemma_step_names();
        }
        object_value(members)
    }
}

impl DriverInfo {
    /// The JSON value of the driver metadata.
    pub fn document(&self) -> (v: serde_json::Value)
        ensures
            json::held_by(v) == driver_document(self@),
    {
        let mut members: Vec<(String, serde_json::Value)> = Vec::new();
        push_member(&mut members, "inf", text_value(self.inf.clone()));
        push_member(&mut members, "published_name", optional_text(&self.published_name));
        push_member(&mut members, "version", optional_text(&self.version));
        push_member(&mut members, "provider", optional_text(&self.provider));
        push_member(&mut members, "hardware_id", optional_text(&self.hardware_id));
        push_member(&mut members, "instance_id", optional_text(&self.instance_id));
        proof {
            assert(json::members_of(members@) =~= driver_document(self@)->Object_0);
            lemma_driver_names();
        }
        object_value(members)
    }
}

/// The member names of a step differ, by their lengths.
proof fn lemma_step_names()
    ensures
        "name"@.len() == 4,
        "status"@.len() == 6,
        "details"@.len() == 7,
        "duration"@.len() == 8,
        "exit_code"@.len() == 9,
        "is_infra_failure"@.len() == 16,
{
    reveal_strlit("name");
    reveal_strlit("status");
    reveal_strlit("details");
    reveal_strlit("duration");
    reveal_strlit("exit_code");
    reveal_strlit("is_infra_failure");
}

/// The member names of the driver metadata differ, by their lengths or their beginnings.
proof fn lemma_driver_names()
    ensures
        "inf"@.len() == 3,
        "version"@.len() == 7,
        "provider"@.len() == 8,
        "hardware_id"@.len() == 11,
        "instance_id"@.len() == 11,
        "published_name"@.len() == 14,
        "hardware_id"@[0] == 'h',
        "instance_id"@[0] == 'i',
{
    reveal_strlit("inf");
    reveal_strlit("version");
    reveal_strlit("provider");
    reveal_strlit("hardware_id");
    reveal_strlit("instance_id");
    reveal_strlit("published_name");
}

/// The member names of a report differ, by their lengths or their beginnings.
proof fn lemma_report_names()
    ensures
        "steps"@.len() == 5,
        "driver"@.len() == 6,
        "success"@.len() == 7,
        "vm_name"@.len() == 7,
        "duration"@.len() == 8,
        "success"@[0] == 's',
        "vm_name"@[0] == 'v',
{
    reveal_strlit("steps");
    reveal_strlit("driver");
    reveal_strlit("success");
    reveal_strlit("vm_name");
    reveal_strlit("duration");
}

/// The text of a report whose rendering gave `rendered`: the rendering, or an object that
/// tells why there is none.
pub open spec fn json_text_of(rendered: Result<Seq<char>, Seq<char>>) -> Seq<char> {
    match rendered {
        Ok(text) => text,
        Err(e) => "{\"error\": \"Failed to serialize report: "@ + e + "\"}"@,
    }
}

/// The text of a report whose rendering gave `rendered`.
pub fn json_text(rendered: Result<String, String>) -> (text: String)
    ensures
        text@ == json_text_of(json::rendered_of(rendered)),
{
    match rendered {
        Ok(text) => text,
        Err(e) => {
            let mut text = labelled("{\"error\": \"Failed to serialize report: ", &e);
            text.append("\"}");
            text
        },
    }
}

impl SmoketestReport {
    /// The JSON value of the report.
    pub fn document(&self) -> (v: serde_json::Value)
        ensures
            json::held_by(v) == report_document(self@),
    {
        let mut steps: Vec<serde_json::Value> = Vec::new();
        let mut i: usize = 0;
        let ghost all = self@.steps;
        while i < self.steps.len()
            invariant
                all == self@.steps,
                i <= self.steps@.len(),
                json::values_of(steps@) == all.take(i as int).map_values(
                    |s: StepView| step_document(s),
                ),
            decreases self.steps@.len() - i,
        {
            let ghost before = steps@;
            steps.push(self.steps[i].document());
            assert(all.take(i + 1) =~= all.take(i as int).push(all[i as int]));
            assert(json::values_of(steps@) =~= json::values_of(before).push(
                step_document(all[i as int]),
            ));
            assert(json::values_of(steps@) =~= all.take(i + 1).map_values(
                |s: StepView| step_document(s),
            ));
            i = i + 1;
        }
        assert(all.take(all.len() as int) =~= all);
        let mut members: Vec<(String, serde_json::Value)> = Vec::new();
        push_member(&mut members, "success", bool_value(self.success));
        push_member(&mut members, "vm_name", text_value(self.vm_name.clone()));
        push_member(&mut members, "driver", self.driver.document());
        push_member(&mut members, "steps", list_value(steps));
        push_member(&mut members, "duration", seconds_value(&self.duration));
        proof {
            assert(json::members_of(members@) =~= report_document(self@)->Object_0);
            lemma_report_names();
        }
        object_value(members)
    }

    /// Serialize the report to pretty-printed JSON, returning any serialization error to
    /// the caller; there is none.
    pub fn try_to_json(&self) -> (r: Result<String, String>)
        ensures
            json::rendered_of(r) == json::pretty_json(report_document(self@)),
            r is Ok,
    {
        to_string_pretty(&self.document())
    }

    /// Serialize the report to pretty-printed JSON.
    ///
    /// Returns a JSON string, or a JSON error object if serialization fails.
    pub fn to_json(&self) -> (text: String)
        ensures
            text@ == json_text_of(json::pretty_json(report_document(self@))),
            json::pretty_json(report_document(self@)) == Ok::<Seq<char>, Seq<char>>(text@),
    {
        json_text(self.try_to_json())
    }
}

// ---------------------------------------------------------------------------
// Interactive summary
// ---------------------------------------------------------------------------

/// A short detail of a step: the value of the first well-known key that it has, else
/// nothing.
pub open spec fn detail_of(details: Pairs) -> Seq<char> {
    match details::lookup(details, "snapshot_name"@) {
        Some(v) => v,
        None => match details::lookup(details, "published_name"@) {
            Some(v) => v,
            None => match details::lookup(details, "device_status"@) {
                Some(v) => v,
                None => match details::lookup(details, "log_path"@) {
                    Some(v) => v,
                    None => Seq::empty(),
                },
            },
        },
    }
}

/// A short detail of a step.
pub fn step_detail(step: &StepResult) -> (text: String)
    ensures
        text@ == detail_of(step@.details),
{
    if let Some(v) = step.details.get("snapshot_name") {
        return v.clone();
    }
    if let Some(v) = step.details.get("published_name") {
        return v.clone();
    }
    if let Some(v) = step.details.get("device_status") {
        return v.clone();
    }
    if let Some(v) = step.details.get("log_path") {
        return v.clone();
    }
    String::new()
}

/// The word for how a step ended, and what is told about it.
pub open spec fn step_ending(s: StepView) -> (Seq<char>, Seq<char>) {
    match s.status {
        StatusView::Pass => ("done"@, detail_of(s.details)),
        StatusView::Fail(message) => ("FAILED"@, message),
        StatusView::Skipped => ("skipped"@, Seq::empty()),
    }
}

/// The line for the step number `idx` of `total`.
pub open spec fn step_line(s: StepView, idx: nat, total: nat) -> Seq<char> {
    let (ending, detail) = step_ending(s);
    let start = "["@ + numbers::decimal(idx) + "/"@ + numbers::decimal(total) + "] "@ + s.name
        + "... "@ + ending;
    if detail.len() == 0 {
        start + "\n"@
    } else {
        start + " ("@ + detail + ")"@ + "\n"@
    }
}

/// The lines for the first `n` of `steps`.
pub open spec fn step_lines(steps: Seq<StepView>, n: nat) -> Seq<char>
    decreases n,
{
    if n == 0 {
        Seq::empty()
    } else {
        step_lines(steps, (n - 1) as nat) + step_line(steps[n - 1], n, steps.len())
    }
}

/// The names of the steps that failed.
pub open spec fn failed_names(steps: Seq<StepView>) -> Seq<Seq<char>>
    decreases steps.len(),
{
    if steps.len() == 0 {
        Seq::empty()
    } else {
        let before = failed_names(steps.drop_last());
        if steps.last().status is Fail {
            before.push(steps.last().name)
        } else {
            before
        }
    }
}

/// The name under which the driver is shown.
pub open spec fn driver_display(d: DriverView) -> Seq<char> {
    match d.published_name {
        Some(name) => name,
        None => d.inf,
    }
}

/// The version under which the driver is shown.
pub open spec fn version_display(d: DriverView) -> Seq<char> {
    match d.version {
        Some(version) => version,
        None => "unknown"@,
    }
}

/// The lines before the steps.
pub open spec fn header(r: ReportView, version: Seq<char>) -> Seq<char> {
    "driver-smoketest v"@ + version + "\n  Package:  "@ + r.driver.inf + "\n  VM:       "@ + r.vm_name
        + "\n  Driver:   "@ + driver_display(r.driver) + " v"@ + version_display(r.driver) + "\n\n"@
}

/// The line after the steps.
pub open spec fn summary(r: ReportView) -> Seq<char> {
    let secs = numbers::decimal(r.duration / 1_000_000_000);
    if all_passed(r.steps) {
        "PASS  "@ + driver_display(r.driver) + " verified on "@ + r.vm_name + " ("@ + secs + "s)\n"@
    } else {
        "FAIL  "@ + driver_display(r.driver) + " on "@ + r.vm_name + " ("@ + secs
            + "s) — failed step(s): "@ + text::join_of(failed_names(r.steps), ", "@) + "\n"@
    }
}

/// The summary of a report for human readers, as a tool of the given version writes it.
pub open spec fn interactive_text(r: ReportView, version: Seq<char>) -> Seq<char> {
    header(r, version) + step_lines(r.steps, r.steps.len()) + "\n"@ + summary(r)
}

fn display_name(d: &DriverInfo) -> (text: String)
    ensures
        text@ == driver_display(d@),
{
    match &d.published_name {
        Some(name) => name.clone(),
        None => d.inf.clone(),
    }
}

fn write_header(r: &SmoketestReport, version: &str) -> (text: String)
    ensures
        text@ == header(r@, version@),
{
    let mut text = "driver-smoketest v".to_owned();
    text.append(version);
    text.append("\n  Package:  ");
    text.append(r.driver.inf.as_str());
    text.append("\n  VM:       ");
    text.append(r.vm_name.as_str());
    text.append("\n  Driver:   ");
    text.append(display_name(&r.driver).as_str());
    text.append(" v");
    match &r.driver.version {
        Some(v) => {
            text.append(v.as_str());
        },
        None => {
            text.append("unknown");
        },
    }
    text.append("\n\n");
    text
}

fn write_step_line(step: &StepResult, idx: usize, total: usize) -> (text: String)
    ensures
        text@ == step_line(step@, idx as nat, total as nat),
{
    let (ending, detail) = match &step.status {
        StepStatus::Pass => ("done", step_detail(step)),
        StepStatus::Fail(message) => ("FAILED", message.clone()),
        StepStatus::Skipped => ("skipped", String::new()),
    };
    let mut text = labelled("[", &unsigned_to_string(idx as u64));
    text.append("/");
    text.append(unsigned_to_string(total as u64).as_str());
    text.append("] ");
    text.append(step.name.as_str());
    text.append("... ");
    text.append(ending);
    if detail.as_str().unicode_len() > 0 {
        text.append(" (");
        text.append(detail.as_str());
        text.append(")");
    }
    text.append("\n");
    text
}

fn write_summary(r: &SmoketestReport) -> (text: String)
    ensures
        text@ == summary(r@),
{
    let secs = unsigned_to_string(r.duration.as_secs());
    let display = display_name(&r.driver);
    if r.is_success() {
        let mut text = labelled("PASS  ", &display);
        text.append(" verified on ");
        text.append(r.vm_name.as_str());
        text.append(" (");
        text.append(secs.as_str());
        text.append("s)\n");
        text
    } else {
        let mut failed: Vec<String> = Vec::new();
        let mut i: usize = 0;
        let ghost all = r@.steps;
        while i < r.steps.len()
            invariant
                all == r@.steps,
                i <= r.steps@.len(),
                text::texts(failed@) == failed_names(all.take(i as int)),
            decreases r.steps@.len() - i,
        {
            proof {
                assert(all.take(i + 1).drop_last() =~= all.take(i as int));
                assert(all.take(i + 1).last() == r.steps@[i as int]@);
            }
            if let StepStatus::Fail(_) = r.steps[i].status {
                let ghost before = failed@;
                failed.push(r.steps[i].name.clone());
                assert(text::texts(failed@) =~= text::texts(before).push(r.steps@[i as int].name@));
            }
            i = i + 1;
        }
        assert(all.take(all.len() as int) =~= all);
        let mut text = labelled("FAIL  ", &display);
        text.append(" on ");
        text.append(r.vm_name.as_str());
        text.append(" (");
        text.append(secs.as_str());
        text.append("s) — failed step(s): ");
        text.append(join(&failed, ", ").as_str());
        text.append("\n");
        text
    }
}

impl SmoketestReport {
    /// A human-readable summary suitable for interactive terminals.
    ///
    /// ```text
    /// driver-smoketest v0.1.0
    ///   Package:  sample_kmdf_driver.inf
    ///   VM:       driver-test-vm
    ///   Driver:   oem3.inf v1.0.0
    ///
    /// [1/4] Starting log capture... done
    /// [2/4] Installing driver package... done (oem3.inf)
    /// [3/4] Verifying driver on VM... done (OK)
    /// [4/4] Collecting captured logs... done
    ///
    /// PASS  oem3.inf verified on driver-test-vm (47s)
    /// ```
    pub fn print_interactive(&self, version: &str) -> (text: String)
        ensures
            text@ == interactive_text(self@, version@),
    {
        let mut text = write_header(self, version);
        let ghost start = text@;
        let mut i: usize = 0;
        assert(text@ =~= start + step_lines(self@.steps, 0));
        while i < self.steps.len()
            invariant
                i <= self.steps@.len(),
                start == header(self@, version@),
                text@ == start + step_lines(self@.steps, i as nat),
            decreases self.steps@.len() - i,
        {
            let line = write_step_line(&self.steps[i], i + 1, self.steps.len());
            text.append(line.as_str());
            assert(text@ =~= start + step_lines(self@.steps, (i + 1) as nat));
            i = i + 1;
        }
        text.append("\n");
        text.append(write_summary(self).as_str());
        text
    }
}

// ---------------------------------------------------------------------------
// Laws
// ---------------------------------------------------------------------------

/// The exit code is 0 exactly for a run that passed, and 2 exactly for one with a failure
/// that lies in the environment.
pub proof fn law_exit_code_tells_the_verdict(steps: Seq<StepView>)
    ensures
        exit_code_of(steps) == 0 <==> all_passed(steps),
        exit_code_of(steps) == 2 <==> any_infra_failure(steps),
        exit_code_of(steps) == 1 <==> !all_passed(steps) && !any_infra_failure(steps),
{
    if any_infra_failure(steps) {
        let i = choose|i: int|
            0 <= i < steps.len() && (#[trigger] steps[i]).is_infra_failure
                && steps[i].status is Fail;
        assert(!all_passed(steps));
    }
}

/// Skipped steps do not count: a run passes or fails as it would without them.
pub proof fn law_skipped_steps_do_not_count(steps: Seq<StepView>, i: int)
    requires
        0 <= i < steps.len(),
        steps[i].status is Skipped,
    ensures
        exit_code_of(steps) == exit_code_of(steps.remove(i)),
{
    let rest = steps.remove(i);
    assert forall|k: int| 0 <= k < rest.len() implies (#[trigger] rest[k]) == steps[if k < i {
        k
    } else {
        k + 1
    }] by {}
    if all_passed(rest) {
        assert forall|k: int| 0 <= k < steps.len() implies !((#[trigger] steps[k]).status is Fail) by {
            if k < i {
                assert(rest[k] == steps[k]);
            } else if k > i {
                assert(rest[k - 1] == steps[k]);
            }
        }
    }
    if any_infra_failure(steps) {
        let k = choose|k: int|
            0 <= k < steps.len() && (#[trigger] steps[k]).is_infra_failure
                && steps[k].status is Fail;
        if k < i {
            assert(rest[k] == steps[k]);
        } else {
            assert(rest[k - 1] == steps[k]);
        }
    }
}

/// The summary line begins with `PASS` exactly for a run that passed, else with `FAIL`.
pub proof fn law_summary_tells_the_verdict(r: ReportView)
    ensures
        "PASS"@.is_prefix_of(summary(r)) <==> all_passed(r.steps),
        "FAIL"@.is_prefix_of(summary(r)) <==> !all_passed(r.steps),
{
    reveal_strlit("PASS");
    reveal_strlit("FAIL");
    reveal_strlit("PASS  ");
    reveal_strlit("FAIL  ");
    let line = summary(r);
    if all_passed(r.steps) {
        assert(line.subrange(0, 4) =~= "PASS"@);
        assert("FAIL"@[0] != line.subrange(0, 4)[0]);
    } else {
        assert(line.subrange(0, 4) =~= "FAIL"@);
        assert("PASS"@[0] != line.subrange(0, 4)[0]);
    }
}

/// The exit code in plain words: 0 when no step failed, 2 when a step failed for a reason in
/// the environment, and 1 when steps failed and none of them for such a reason.
pub proof fn law_exit_code_follows_the_steps(steps: Seq<StepView>)
    ensures
        exit_code_of(steps) == 0 <==> (forall|i: int|
            0 <= i < steps.len() ==> !((#[trigger] steps[i]).status is Fail)),
        exit_code_of(steps) == 2 <==> (exists|i: int|
            0 <= i < steps.len() && (#[trigger] steps[i]).status is Fail
                && steps[i].is_infra_failure),
        exit_code_of(steps) == 0 || exit_code_of(steps) == 1 || exit_code_of(steps) == 2,
        all_passed(steps) <==> exit_code_of(steps) == 0,
        any_infra_failure(steps) <==> exit_code_of(steps) == 2,
{
    law_exit_code_tells_the_verdict(steps);
    if exists|i: int|
        0 <= i < steps.len() && (#[trigger] steps[i]).status is Fail && steps[i].is_infra_failure {
        let i = choose|i: int|
            0 <= i < steps.len() && (#[trigger] steps[i]).status is Fail
                && steps[i].is_infra_failure;
        assert(steps[i].is_infra_failure);
    }
    if any_infra_failure(steps) {
        let i = choose|i: int|
            0 <= i < steps.len() && (#[trigger] steps[i]).is_infra_failure
                && steps[i].status is Fail;
        assert(steps[i].status is Fail);
    }
}

/// One more failure in the environment makes the exit code 2, one more failure of the driver
/// makes it 1 unless it is 2, and a step that did not fail leaves it alone.
pub proof fn law_next_step_moves_the_exit_code(steps: Seq<StepView>, step: StepView)
    ensures
        step.status is Fail && step.is_infra_failure ==> exit_code_of(steps.push(step)) == 2,
        step.status is Fail && !step.is_infra_failure ==> exit_code_of(steps.push(step)) == (
        if exit_code_of(steps) == 2 {
            2i32
        } else {
            1i32
        }),
        !(step.status is Fail) ==> exit_code_of(steps.push(step)) == exit_code_of(steps),
{
    let more = steps.push(step);
    law_exit_code_follows_the_steps(steps);
    law_exit_code_follows_the_steps(more);
    assert(more[steps.len() as int] == step);
    assert forall|i: int| 0 <= i < steps.len() implies more[i] == #[trigger] steps[i] by {}
    assert forall|i: int| 0 <= i < steps.len() implies #[trigger] more[i] == steps[i] by {}
}

// ---------------------------------------------------------------------------
// Laws of documents
// ---------------------------------------------------------------------------

/// A status is written with its name, and a failure with its message.
pub proof fn law_status_document(s: StatusView, other: StatusView)
    ensures
        status_document(s) matches JsonView::Object(m) && {
            &&& m[0].0 == "status"@
            &&& s is Pass ==> m.len() == 1 && m[0].1 == JsonView::Text("Pass"@)
            &&& s is Skipped ==> m.len() == 1 && m[0].1 == JsonView::Text("Skipped"@)
            &&& s matches StatusView::Fail(message) ==> m.len() == 2 && m[0].1 == JsonView::Text(
                "Fail"@,
            ) && m[1] == ("message"@, JsonView::Text(message))
        },
        status_document(s) == status_document(other) ==> s == other,
{
    reveal_strlit("Pass");
    reveal_strlit("Skipped");
    reveal_strlit("Fail");
    assert("Pass"@.len() == 4);
    assert("Skipped"@.len() == 7);
    let a = status_document(s)->Object_0;
    let b = status_document(other)->Object_0;
    if a == b {
        assert(a[0] == b[0]);
        assert(a.len() == b.len());
        if a.len() == 2 {
            assert(a[1] == b[1]);
        }
    }
}

/// The document of a driver has a member for each of its fields, the text where there is one
/// and `null` exactly where there is none.
pub proof fn law_driver_document_tells_every_field(d: DriverView)
    ensures
        driver_document(d) matches JsonView::Object(m) && {
            &&& m.len() == 6
            &&& m[0] == ("inf"@, JsonView::Text(d.inf))
            &&& m[1].0 == "published_name"@
            &&& m[2].0 == "version"@
            &&& m[3].0 == "provider"@
            &&& m[4].0 == "hardware_id"@
            &&& m[5].0 == "instance_id"@
            &&& d.published_name matches Some(v) ==> m[1].1 == JsonView::Text(v)
            &&& d.version matches Some(v) ==> m[2].1 == JsonView::Text(v)
            &&& d.provider matches Some(v) ==> m[3].1 == JsonView::Text(v)
            &&& d.hardware_id matches Some(v) ==> m[4].1 == JsonView::Text(v)
            &&& d.instance_id matches Some(v) ==> m[5].1 == JsonView::Text(v)
            &&& d.published_name is None <==> m[1].1 is Null
            &&& d.version is None <==> m[2].1 is Null
            &&& d.provider is None <==> m[3].1 is Null
            &&& d.hardware_id is None <==> m[4].1 is Null
            &&& d.instance_id is None <==> m[5].1 is Null
        },
{
}

/// The document of a driver determines the driver.
pub proof fn law_driver_document_determines_the_driver(a: DriverView, b: DriverView)
    requires
        driver_document(a) == driver_document(b),
    ensures
        a == b,
{
    law_driver_document_tells_every_field(a);
    law_driver_document_tells_every_field(b);
    let m = driver_document(a)->Object_0;
    assert(m[0] == driver_document(b)->Object_0[0]);
}

/// The document of a step has a member for each of its fields: the exit code is a number
/// exactly where there is one, and every detail stands under its own key.
pub proof fn law_step_document_tells_every_field(s: StepView)
    ensures
        step_document(s) matches JsonView::Object(m) && {
            &&& m.len() == 6
            &&& m[0] == ("name"@, JsonView::Text(s.name))
            &&& m[1] == ("status"@, status_document(s.status))
            &&& m[2].0 == "exit_code"@
            &&& s.exit_code matches Some(c) ==> m[2].1 == JsonView::Number(c as int)
            &&& s.exit_code is None <==> m[2].1 is Null
            &&& m[3].0 == "duration"@
            &&& m[3].1 == JsonView::Double(
                json::seconds_bits(
                    (s.duration / 1_000_000_000) as u64,
                    (s.duration % 1_000_000_000) as u32,
                ),
            )
            &&& m[4].0 == "details"@
            &&& m[4].1 matches JsonView::Object(told) && told.len() == s.details.len() && (forall|
                i: int,
            |
                0 <= i < told.len() ==> #[trigger] told[i] == (
                    s.details[i].0,
                    JsonView::Text(s.details[i].1),
                ))
            &&& m[5] == ("is_infra_failure"@, JsonView::Bool(s.is_infra_failure))
        },
{
}

/// The document of a step determines the step, but for its duration, which is written as a
/// number of seconds that is rounded.
pub proof fn law_step_document_determines_the_step(a: StepView, b: StepView)
    requires
        step_document(a) == step_document(b),
    ensures
        a == (StepView { duration: a.duration, ..b }),
{
    law_step_document_tells_every_field(a);
    law_step_document_tells_every_field(b);
    law_status_document(a.status, b.status);
    let m = step_document(a)->Object_0;
    assert(m[0] == step_document(b)->Object_0[0]);
    let told = m[4].1->Object_0;
    assert forall|i: int| 0 <= i < told.len() implies a.details[i] == b.details[i] by {
        assert(told[i].0 == a.details[i].0);
        assert(told[i].1 == JsonView::Text(a.details[i].1));
        assert(step_document(b)->Object_0[4].1->Object_0[i] == told[i]);
    }
    assert(a.details =~= b.details);
}

/// The document of a report has a member for each of its fields, and one document for each of
/// its steps, in order.
pub proof fn law_report_document_tells_every_field(r: ReportView)
    ensures
        report_document(r) matches JsonView::Object(m) && {
            &&& m.len() == 5
            &&& m[0] == ("success"@, JsonView::Bool(r.success))
            &&& m[1] == ("vm_name"@, JsonView::Text(r.vm_name))
            &&& m[2] == ("driver"@, driver_document(r.driver))
            &&& m[3].0 == "steps"@
            &&& m[3].1 matches JsonView::List(documents) && documents.len() == r.steps.len() && (
            forall|i: int|
                0 <= i < documents.len() ==> #[trigger] documents[i] == step_document(r.steps[i]))
            &&& m[4].0 == "duration"@
            &&& m[4].1 == JsonView::Double(
                json::seconds_bits(
                    (r.duration / 1_000_000_000) as u64,
                    (r.duration % 1_000_000_000) as u32,
                ),
            )
        },
{
}

/// Two reports with one document agree in everything but durations: in the verdict, the VM,
/// the driver and every step.
pub proof fn law_report_document_determines_the_report(a: ReportView, b: ReportView)
    requires
        report_document(a) == report_document(b),
    ensures
        a.success == b.success,
        a.vm_name == b.vm_name,
        a.driver == b.driver,
        a.steps.len() == b.steps.len(),
        forall|i: int|
            0 <= i < a.steps.len() ==> #[trigger] a.steps[i] == (StepView {
                duration: a.steps[i].duration,
                ..b.steps[i]
            }),
{
    law_report_document_tells_every_field(a);
    law_report_document_tells_every_field(b);
    let m = report_document(a)->Object_0;
    assert(m[0] == report_document(b)->Object_0[0]);
    law_driver_document_determines_the_driver(a.driver, b.driver);
    let documents = m[3].1->List_0;
    assert forall|i: int| 0 <= i < a.steps.len() implies #[trigger] a.steps[i] == (StepView {
        duration: a.steps[i].duration,
        ..b.steps[i]
    }) by {
        assert(documents[i] == step_document(a.steps[i]));
        assert(documents[i] == step_document(b.steps[i]));
        law_step_document_determines_the_step(a.steps[i], b.steps[i]);
    }
}

/// A rendering that succeeded is passed on as it is; one that failed becomes an object that
/// tells why.
pub proof fn law_failed_rendering_is_told(text: Seq<char>)
    ensures
        json_text_of(Ok(text)) == text,
        json_text_of(Err(text)) == "{\"error\": \"Failed to serialize report: "@ + text + "\"}"@,
{
}

// ---------------------------------------------------------------------------
// Laws of the summary
// ---------------------------------------------------------------------------

/// The detail of a step that passed is the value of the first of four keys that it has.
pub proof fn law_first_known_detail_is_shown(details: Pairs)
    ensures
        ({
            let snapshot = details::lookup(details, "snapshot_name"@);
            let published = details::lookup(details, "published_name"@);
            let status = details::lookup(details, "device_status"@);
            let log = details::lookup(details, "log_path"@);
            &&& snapshot matches Some(v) ==> detail_of(details) == v
            &&& snapshot is None && published is Some ==> detail_of(details) == published->0
            &&& snapshot is None && published is None && status is Some ==> detail_of(details)
                == status->0
            &&& snapshot is None && published is None && status is None && log is Some
                ==> detail_of(details) == log->0
            &&& snapshot is None && published is None && status is None && log is None
                ==> detail_of(details).len() == 0
        }),
{
}

/// The line of a step tells its place among all steps, its name and how it ended, with the
/// message of a failure and the detail of a success in brackets.
pub proof fn law_step_line_tells_the_ending(s: StepView, idx: nat, total: nat)
    ensures
        ({
            let start = "["@ + numbers::decimal(idx) + "/"@ + numbers::decimal(total) + "] "@
                + s.name + "... "@;
            let line = step_line(s, idx, total);
            &&& s.status is Skipped ==> line == start + "skipped"@ + "\n"@
            &&& s.status matches StatusView::Fail(m) ==> line == (if m.len() == 0 {
                start + "FAILED"@ + "\n"@
            } else {
                start + "FAILED"@ + " ("@ + m + ")"@ + "\n"@
            })
            &&& s.status is Pass ==> line == (if detail_of(s.details).len() == 0 {
                start + "done"@ + "\n"@
            } else {
                start + "done"@ + " ("@ + detail_of(s.details) + ")"@ + "\n"@
            })
        }),
{
}

/// The lines of the steps come in order, each with its own number: the lines of the first `n`
/// steps end with the line of the last of them and begin with the lines of the others.
pub proof fn law_step_lines_come_in_order(steps: Seq<StepView>, n: nat)
    requires
        n < steps.len(),
    ensures
        step_lines(steps, 0).len() == 0,
        step_lines(steps, n + 1) == step_lines(steps, n) + step_line(
            steps[n as int],
            n + 1,
            steps.len(),
        ),
{
}

/// The failed steps are listed by name, all of them, no other, and in order.
pub proof fn law_failed_names_list_the_failures(steps: Seq<StepView>)
    ensures
        failed_names(steps) == steps.filter(|s: StepView| s.status is Fail).map_values(
            |s: StepView| s.name,
        ),
    decreases steps.len(),
{
    let failed = |s: StepView| s.status is Fail;
    let name = |s: StepView| s.name;
    reveal(Seq::filter);
    if steps.len() > 0 {
        let before = steps.drop_last();
        law_failed_names_list_the_failures(before);
        if steps.last().status is Fail {
            assert(before.filter(failed).push(steps.last()).map_values(name) =~= before.filter(
                failed,
            ).map_values(name).push(steps.last().name));
        }
    } else {
        assert(steps.filter(failed).map_values(name) =~= Seq::empty());
    }
    assert(failed_names(steps) =~= steps.filter(failed).map_values(name));
}

/// The driver is shown by its published name, or where it has none by its manifest.
pub proof fn law_driver_is_shown_by_its_published_name(d: DriverView)
    ensures
        d.published_name matches Some(name) ==> driver_display(d) == name,
        d.published_name is None ==> driver_display(d) == d.inf,
        d.version matches Some(version) ==> version_display(d) == version,
        d.version is None ==> version_display(d) == "unknown"@,
{
}

/// The last line tells the verdict, the driver, the VM, the whole seconds of the run and, where
/// steps failed, their names.
pub proof fn law_summary_tells_the_run(r: ReportView)
    ensures
        ({
            let shown = match r.driver.published_name {
                Some(name) => name,
                None => r.driver.inf,
            };
            let secs = numbers::decimal(r.duration / 1_000_000_000);
            let names = r.steps.filter(|s: StepView| s.status is Fail).map_values(
                |s: StepView| s.name,
            );
            let passed = forall|i: int|
                0 <= i < r.steps.len() ==> !((#[trigger] r.steps[i]).status is Fail);
            &&& passed ==> summary(r) == "PASS  "@ + shown + " verified on "@ + r.vm_name + " ("@
                + secs + "s)\n"@
            &&& !passed ==> summary(r) == "FAIL  "@ + shown + " on "@ + r.vm_name + " ("@ + secs
                + "s) — failed step(s): "@ + text::join_of(names, ", "@) + "\n"@
        }),
{
    law_failed_names_list_the_failures(r.steps);
    assert(failed_names(r.steps) =~= r.steps.filter(|s: StepView| s.status is Fail).map_values(
        |s: StepView| s.name,
    ));
}

/// The lines before the steps tell the version of the tool, the manifest, the VM, the driver
/// and its version.
pub proof fn law_header_tells_what_is_tested(r: ReportView, version: Seq<char>)
    ensures
        header(r, version) == "driver-smoketest v"@ + version + "\n  Package:  "@ + r.driver.inf
            + "\n  VM:       "@ + r.vm_name + "\n  Driver:   "@ + (match r.driver.published_name {
            Some(name) => name,
            None => r.driver.inf,
        }) + " v"@ + (match r.driver.version {
            Some(v) => v,
            None => "unknown"@,
        }) + "\n\n"@,
{
}

/// The whole text is the header, a line for every step, an empty line and the verdict.
pub proof fn law_text_has_its_parts(r: ReportView, version: Seq<char>)
    ensures
        ({
            let text = interactive_text(r, version);
            let lines = step_lines(r.steps, r.steps.len());
            let head = header(r, version);
            let last = summary(r);
            &&& text.len() == head.len() + lines.len() + 1 + last.len()
            &&& text.take(head.len() as int) == head
            &&& text.subrange(head.len() as int, (head.len() + lines.len()) as int) == lines
            &&& text[(head.len() + lines.len()) as int] == '\n'
            &&& text.skip((head.len() + lines.len() + 1) as int) == last
        }),
{
    reveal_strlit("\n");
    let text = interactive_text(r, version);
    let lines = step_lines(r.steps, r.steps.len());
    let head = header(r, version);
    let last = summary(r);
    assert(text.take(head.len() as int) =~= head);
    assert(text.subrange(head.len() as int, (head.len() + lines.len()) as int) =~= lines);
    assert(text.skip((head.len() + lines.len() + 1) as int) =~= last);
}

} // verus!
