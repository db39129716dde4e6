use driver_test_cli_v2::details::Details;
use driver_test_cli_v2::duration::Duration;
use driver_test_cli_v2::report::{
    json_text, step_detail, DriverInfo, SmoketestReport, StepResult, StepStatus,
};
use serde_json::Value;

// -------------------------------------------------------------------------
// Builders
// -------------------------------------------------------------------------

fn details(pairs: &[(&str, &str)]) -> Details {
    let mut d = Details::new();
    for (key, value) in pairs {
        d.insert(key.to_string(), value.to_string());
    }
    d
}

fn sample_report(fail: bool) -> SmoketestReport {
    let steps = vec![
        StepResult {
            name: "Reverting to baseline snapshot".into(),
            status: StepStatus::Pass,
            exit_code: Some(0),
            duration: Duration::from_secs(5),
            details: details(&[("snapshot_name", "smoketest-baseline")]),
            is_infra_failure: false,
        },
        StepResult {
            name: "Installing driver package".into(),
            status: if fail {
                StepStatus::Fail("pnputil returned 1".into())
            } else {
                StepStatus::Pass
            },
            exit_code: Some(if fail { 1 } else { 0 }),
            duration: Duration::from_secs(12),
            details: details(&[("published_name", "oem3.inf")]),
            is_infra_failure: false,
        },
    ];

    let success = steps
        .iter()
        .all(|s| matches!(s.status, StepStatus::Pass | StepStatus::Skipped));

    SmoketestReport {
        success,
        vm_name: "driver-test-vm".into(),
        driver: DriverInfo {
            inf: "sample_kmdf_driver.inf".into(),
            published_name: Some("oem3.inf".into()),
            version: Some("1.0.0".into()),
            provider: Some("Contoso".into()),
            hardware_id: None,
            instance_id: None,
        },
        steps,
        duration: Duration::from_secs(47),
    }
}

fn make_driver_info() -> DriverInfo {
    DriverInfo {
        inf: "test_driver.inf".into(),
        published_name: Some("oem5.inf".into()),
        version: Some("2.0.1".into()),
        provider: Some("Contoso".into()),
        hardware_id: Some("ROOT\\SAMPLE".into()),
        instance_id: None,
    }
}

fn make_step(name: &str, status: StepStatus) -> StepResult {
    StepResult {
        name: name.into(),
        status,
        exit_code: Some(0),
        duration: Duration::from_secs(3),
        details: Details::new(),
        is_infra_failure: false,
    }
}

fn make_infra_step(name: &str, status: StepStatus) -> StepResult {
    StepResult {
        name: name.into(),
        status,
        exit_code: None,
        duration: Duration::from_secs(1),
        details: Details::new(),
        is_infra_failure: true,
    }
}

fn make_report(steps: Vec<StepResult>) -> SmoketestReport {
    let success = steps
        .iter()
        .all(|s| matches!(s.status, StepStatus::Pass | StepStatus::Skipped));
    SmoketestReport {
        success,
        vm_name: "unit-test-vm".into(),
        driver: make_driver_info(),
        steps,
        duration: Duration::from_secs(60),
    }
}

fn parsed(report: &SmoketestReport) -> Value {
    serde_json::from_str(&report.to_json()).expect("to_json() must produce valid JSON")
}

// -------------------------------------------------------------------------
// Verdict
// -------------------------------------------------------------------------

#[test]
fn report_is_success_all_pass() {
    let r = sample_report(false);
    assert!(r.is_success());
}

#[test]
fn is_success_with_failure() {
    let r = sample_report(true);
    assert!(!r.is_success());
}

#[test]
fn skipped_does_not_fail() {
    let r = SmoketestReport {
        success: true,
        vm_name: "vm".into(),
        driver: DriverInfo {
            inf: "test.inf".into(),
            published_name: None,
            version: None,
            provider: None,
            hardware_id: None,
            instance_id: None,
        },
        steps: vec![StepResult {
            name: "optional step".into(),
            status: StepStatus::Skipped,
            exit_code: None,
            duration: Duration::zero(),
            details: Details::new(),
            is_infra_failure: false,
        }],
        duration: Duration::from_secs(1),
    };
    assert!(r.is_success());
}

#[test]
fn unit_tests_is_success_all_pass() {
    let report = make_report(vec![
        make_step("step1", StepStatus::Pass),
        make_step("step2", StepStatus::Pass),
    ]);
    assert!(report.is_success());
}

#[test]
fn is_success_false_when_any_step_fails() {
    let report = make_report(vec![
        make_step("step1", StepStatus::Pass),
        make_step("step2", StepStatus::Fail("broke".into())),
        make_step("step3", StepStatus::Pass),
    ]);
    assert!(!report.is_success());
}

#[test]
fn is_success_ignores_skipped_steps() {
    let report = make_report(vec![
        make_step("step1", StepStatus::Pass),
        make_step("step2", StepStatus::Skipped),
        make_step("step3", StepStatus::Skipped),
    ]);
    assert!(report.is_success());
}

#[test]
fn is_success_only_skipped_steps() {
    let report = make_report(vec![
        make_step("s1", StepStatus::Skipped),
        make_step("s2", StepStatus::Skipped),
    ]);
    assert!(report.is_success());
}

#[test]
fn is_success_empty_steps() {
    let report = make_report(vec![]);
    assert!(report.is_success());
}

#[test]
fn short_circuit_report_is_not_success() {
    let steps = vec![
        make_step("install", StepStatus::Fail("infra error".into())),
        make_step("verify", StepStatus::Skipped),
        make_step("capture", StepStatus::Skipped),
    ];
    let report = make_report(steps);
    assert!(!report.is_success(), "report with a failed step should not be success");
}

#[test]
fn has_infra_failure_true_when_infra_step_fails() {
    let steps = vec![
        make_infra_step("install", StepStatus::Fail("VM unreachable".into())),
        make_step("verify", StepStatus::Skipped),
    ];
    let report = make_report(steps);
    assert!(
        report.has_infra_failure(),
        "should detect infra failure when is_infra_failure=true and status=Fail"
    );
}

#[test]
fn has_infra_failure_false_when_all_failures_are_non_infra() {
    let steps = vec![
        make_step("install", StepStatus::Pass),
        make_step("verify", StepStatus::Fail("pnputil returned 1".into())),
    ];
    let report = make_report(steps);
    assert!(
        !report.has_infra_failure(),
        "should NOT detect infra failure when is_infra_failure=false"
    );
}

#[test]
fn has_infra_failure_false_when_infra_step_passes() {
    // is_infra_failure=true but status=Pass → not an infra failure
    let steps = vec![
        make_infra_step("install", StepStatus::Pass),
        make_step("verify", StepStatus::Pass),
    ];
    let report = make_report(steps);
    assert!(
        !report.has_infra_failure(),
        "should NOT detect infra failure when infra step passed"
    );
}

#[test]
fn has_infra_failure_false_when_no_failures() {
    let steps = vec![
        make_step("install", StepStatus::Pass),
        make_step("verify", StepStatus::Pass),
    ];
    let report = make_report(steps);
    assert!(!report.has_infra_failure());
}

#[test]
fn exit_codes_of_reports() {
    let pass = make_report(vec![make_step("a", StepStatus::Pass)]);
    let fail = make_report(vec![make_step("a", StepStatus::Fail("x".into()))]);
    let infra = make_report(vec![
        make_step("a", StepStatus::Fail("x".into())),
        make_infra_step("b", StepStatus::Fail("y".into())),
    ]);
    assert_eq!(pass.exit_code(), 0);
    assert_eq!(fail.exit_code(), 1);
    assert_eq!(infra.exit_code(), 2);
}

#[test]
fn skipped_steps_leave_the_exit_code_alone() {
    let with = make_report(vec![
        make_infra_step("a", StepStatus::Fail("x".into())),
        make_step("b", StepStatus::Skipped),
    ]);
    let without = make_report(vec![make_infra_step("a", StepStatus::Fail("x".into()))]);
    assert_eq!(with.exit_code(), without.exit_code());
}

// -------------------------------------------------------------------------
// JSON
// -------------------------------------------------------------------------

#[test]
fn to_json_roundtrip() {
    let r = sample_report(false);
    let json = r.to_json();
    assert!(json.contains("\"success\": true"));
    assert!(json.contains("driver-test-vm"));
}

#[test]
fn to_json_is_valid_and_deserializable() {
    let report = make_report(vec![
        make_step("snapshot", StepStatus::Pass),
        make_step("install", StepStatus::Fail("timeout".into())),
    ]);
    let parsed = parsed(&report);

    assert_eq!(parsed["vm_name"], "unit-test-vm");
    assert_eq!(parsed["driver"]["inf"], "test_driver.inf");
    assert_eq!(parsed["driver"]["provider"], "Contoso");
    assert!(parsed["steps"].is_array());
    assert_eq!(parsed["steps"].as_array().unwrap().len(), 2);
}

#[test]
fn to_json_success_field_matches_is_success() {
    let passing = make_report(vec![make_step("s", StepStatus::Pass)]);
    assert_eq!(parsed(&passing)["success"], true);

    let failing = make_report(vec![make_step("s", StepStatus::Fail("x".into()))]);
    assert_eq!(parsed(&failing)["success"], false);
}

#[test]
fn to_json_duration_is_numeric() {
    let report = make_report(vec![make_step("s", StepStatus::Pass)]);
    let parsed = parsed(&report);
    assert!(
        parsed["duration"].is_f64() || parsed["duration"].is_u64(),
        "top-level duration should serialize as a number"
    );
    // Step-level duration too
    assert!(
        parsed["steps"][0]["duration"].is_f64() || parsed["steps"][0]["duration"].is_u64(),
        "step duration should serialize as a number"
    );
}

#[test]
fn to_json_step_status_tagged() {
    let report = make_report(vec![
        make_step("a", StepStatus::Pass),
        make_step("b", StepStatus::Fail("oops".into())),
        make_step("c", StepStatus::Skipped),
    ]);
    let parsed = parsed(&report);
    let steps = parsed["steps"].as_array().unwrap();

    // Each status field is an object like {"status": "Pass"}.
    assert_eq!(steps[0]["status"]["status"], "Pass");
    assert_eq!(steps[1]["status"]["status"], "Fail");
    assert_eq!(steps[1]["status"]["message"], "oops");
    assert_eq!(steps[2]["status"]["status"], "Skipped");
}

#[test]
fn driver_info_optional_fields_serialize_as_null() {
    let info = DriverInfo {
        inf: "test.inf".into(),
        published_name: None,
        version: None,
        provider: None,
        hardware_id: None,
        instance_id: None,
    };
    let report = SmoketestReport {
        success: true,
        vm_name: "vm".into(),
        driver: info,
        steps: vec![],
        duration: Duration::zero(),
    };
    let parsed = parsed(&report);
    assert!(parsed["driver"]["published_name"].is_null());
    assert!(parsed["driver"]["version"].is_null());
}

#[test]
fn step_details_serialize_to_json() {
    let mut step = make_step("snapshot", StepStatus::Pass);
    step.details
        .insert("snapshot_name".into(), "baseline".into());
    let report = make_report(vec![step]);
    assert_eq!(parsed(&report)["steps"][0]["details"]["snapshot_name"], "baseline");
}

#[test]
fn report_to_json_returns_valid_json() {
    let report = make_report(vec![
        make_step("snapshot", StepStatus::Pass),
        make_step("install", StepStatus::Fail("timeout".into())),
    ]);
    assert!(parsed(&report).is_object(), "top-level JSON should be an object");
}

#[test]
fn report_try_to_json_returns_ok() {
    let report = make_report(vec![make_step("s", StepStatus::Pass)]);
    let result = report.try_to_json();
    assert!(
        result.is_ok(),
        "try_to_json should return Ok for a valid report"
    );
    // Also confirm the Ok value is valid JSON
    let json_str = result.unwrap();
    let parsed: Value = serde_json::from_str(&json_str).unwrap();
    assert!(parsed["vm_name"].is_string());
}

#[test]
fn has_infra_failure_serializes_in_json() {
    let steps = vec![
        make_infra_step("install", StepStatus::Fail("timeout".into())),
    ];
    let report = make_report(steps);
    assert_eq!(
        parsed(&report)["steps"][0]["is_infra_failure"], true,
        "is_infra_failure should serialize to JSON"
    );
}

#[test]
fn driver_info_fields_can_be_populated() {
    let info = make_driver_info();
    assert_eq!(info.inf, "test_driver.inf");
    assert_eq!(info.published_name, Some("oem5.inf".into()));
    assert_eq!(info.version, Some("2.0.1".into()));
    assert_eq!(info.provider, Some("Contoso".into()));
    assert_eq!(info.hardware_id, Some("ROOT\\SAMPLE".into()));
    assert!(info.instance_id.is_none());
}

#[test]
fn driver_info_populated_fields_appear_in_json() {
    let report = make_report(vec![make_step("install", StepStatus::Pass)]);
    let parsed = parsed(&report);
    assert_eq!(parsed["driver"]["published_name"], "oem5.inf");
    assert_eq!(parsed["driver"]["version"], "2.0.1");
    assert_eq!(parsed["driver"]["provider"], "Contoso");
    assert_eq!(parsed["driver"]["hardware_id"], "ROOT\\SAMPLE");
}

#[test]
fn failed_rendering_gives_an_error_object() {
    assert_eq!(
        json_text(Err("no room".to_string())),
        "{\"error\": \"Failed to serialize report: no room\"}"
    );
    assert_eq!(json_text(Ok("{}".to_string())), "{}");
}

#[test]
fn documents_name_their_members_in_order() {
    let names = |value: &Value| -> Vec<String> {
        value.as_object().unwrap().keys().cloned().collect()
    };
    let report = make_report(vec![make_infra_step("a", StepStatus::Fail("b".into()))]);
    assert_eq!(
        names(&report.document()),
        ["success", "vm_name", "driver", "steps", "duration"]
    );
    assert_eq!(
        names(&report.driver.document()),
        ["inf", "published_name", "version", "provider", "hardware_id", "instance_id"]
    );
    assert_eq!(
        names(&report.steps[0].document()),
        ["name", "status", "exit_code", "duration", "details", "is_infra_failure"]
    );
    assert_eq!(names(&report.steps[0].status.document()), ["status", "message"]);
}

#[test]
fn whole_text_of_a_report() {
    let mut report = make_report(vec![make_step("s", StepStatus::Pass)]);
    report.steps[0].duration = Duration::from_millis(1500);
    report.steps[0].details.insert("stdout".into(), "a \"b\"\n".into());
    report.steps[0].details.insert("aaa".into(), "é".into());
    report.steps[0].exit_code = Some(-1);
    let expected = r#"{
  "success": true,
  "vm_name": "unit-test-vm",
  "driver": {
    "inf": "test_driver.inf",
    "published_name": "oem5.inf",
    "version": "2.0.1",
    "provider": "Contoso",
    "hardware_id": "ROOT\\SAMPLE",
    "instance_id": null
  },
  "steps": [
    {
      "name": "s",
      "status": {
        "status": "Pass"
      },
      "exit_code": -1,
      "duration": 1.5,
      "details": {
        "stdout": "a \"b\"\n",
        "aaa": "é"
      },
      "is_infra_failure": false
    }
  ],
  "duration": 60.0
}"#;
    assert_eq!(report.to_json(), expected);
}

// -------------------------------------------------------------------------
// Interactive summary
// -------------------------------------------------------------------------

#[test]
fn print_interactive_contains_pass_marker() {
    let report = make_report(vec![make_step("install", StepStatus::Pass)]);
    assert!(report.is_success());
    let text = report.print_interactive("0.1.0");
    assert!(text.contains("PASS  oem5.inf verified on unit-test-vm (60s)\n"), "{text}");
}

#[test]
fn print_interactive_would_show_fail_for_failed_report() {
    let report = make_report(vec![make_step("verify", StepStatus::Fail("bad".into()))]);
    assert!(!report.is_success());
    let text = report.print_interactive("0.1.0");
    assert!(
        text.contains("FAIL  oem5.inf on unit-test-vm (60s) — failed step(s): verify\n"),
        "{text}"
    );
}

#[test]
fn print_interactive_no_hardcoded_running() {
    let report = make_report(vec![make_step("step", StepStatus::Pass)]);
    let parsed = parsed(&report);
    let vm_name = parsed["vm_name"].as_str().unwrap();
    assert!(
        !vm_name.contains("(Running)"),
        "vm_name in report should not contain hardcoded '(Running)': {vm_name}"
    );

    // Also verify the report's vm_name field directly
    assert!(
        !report.vm_name.contains("(Running)"),
        "report.vm_name must not contain '(Running)'"
    );
    assert!(!report.print_interactive("0.1.0").contains("(Running)"));
}

#[test]
fn whole_summary_of_a_passing_run() {
    let mut report = make_report(vec![
        make_step("Starting log capture", StepStatus::Pass),
        make_step("Installing driver package", StepStatus::Pass),
        make_step("Verifying driver on VM", StepStatus::Pass),
        make_step("Collecting captured logs", StepStatus::Pass),
    ]);
    report.vm_name = "driver-test-vm".into();
    report.driver.inf = "sample_kmdf_driver.inf".into();
    report.driver.published_name = Some("oem3.inf".into());
    report.driver.version = Some("1.0.0".into());
    report.duration = Duration::new(47, 900_000_000);
    report.steps[1].details.insert("published_name".into(), "oem3.inf".into());
    report.steps[2].details.insert("device_status".into(), "OK".into());
    assert_eq!(
        report.print_interactive("0.1.0"),
        "driver-smoketest v0.1.0\n  Package:  sample_kmdf_driver.inf\n  VM:       driver-test-vm\n  Driver:   oem3.inf v1.0.0\n\n[1/4] Starting log capture... done\n[2/4] Installing driver package... done (oem3.inf)\n[3/4] Verifying driver on VM... done (OK)\n[4/4] Collecting captured logs... done\n\nPASS  oem3.inf verified on driver-test-vm (47s)\n"
    );
}

#[test]
fn whole_summary_of_a_failing_run() {
    let mut report = make_report(vec![
        make_step("one", StepStatus::Fail("no VM".into())),
        make_step("two", StepStatus::Skipped),
        make_step("three", StepStatus::Fail(String::new())),
    ]);
    report.driver.published_name = None;
    report.driver.version = None;
    assert_eq!(
        report.print_interactive("9"),
        "driver-smoketest v9\n  Package:  test_driver.inf\n  VM:       unit-test-vm\n  Driver:   test_driver.inf vunknown\n\n[1/3] one... FAILED (no VM)\n[2/3] two... skipped\n[3/3] three... FAILED\n\nFAIL  test_driver.inf on unit-test-vm (60s) — failed step(s): one, three\n"
    );
}

#[test]
fn step_detail_prefers_well_known_keys() {
    let mut step = make_step("s", StepStatus::Pass);
    assert_eq!(step_detail(&step), "");
    step.details.insert("stdout".into(), "noise".into());
    assert_eq!(step_detail(&step), "");
    step.details.insert("log_path".into(), "log".into());
    assert_eq!(step_detail(&step), "log");
    step.details.insert("device_status".into(), "OK".into());
    assert_eq!(step_detail(&step), "OK");
    step.details.insert("published_name".into(), "oem1.inf".into());
    assert_eq!(step_detail(&step), "oem1.inf");
    step.details.insert("snapshot_name".into(), "base".into());
    assert_eq!(step_detail(&step), "base");
}
