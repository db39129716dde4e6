use driver_test_cli_v2::capture::FoundFiles;
use driver_test_cli_v2::details::Details;
use driver_test_cli_v2::duration::Duration;
use driver_test_cli_v2::error::SmoketestError;
use driver_test_cli_v2::extract::extract_detail;
use driver_test_cli_v2::package::{inf_driver, package_driver, PackageDir};
use driver_test_cli_v2::pipeline::{
    runner_failure, scripts_dir_name, Pipeline, PipelineAction, PipelineConfig, PipelineEvent,
    DEFAULT_OUTPUT_DIR,
};
use driver_test_cli_v2::ps_runner::{PsRunner, PsRunnerError, ScriptJob, ScriptResult, VmCredential};
use driver_test_cli_v2::report::{SmoketestReport, StepStatus};
use driver_test_cli_v2::steps::{
    driver_info, given_up_step, reason_to_skip, skipped_step, step_install, step_start_capture,
    step_stop_capture, step_verify, COLLECT_STEP, INSTALL_STEP, START_STEP, VERIFY_STEP,
};

// -------------------------------------------------------------------------
// Builders
// -------------------------------------------------------------------------

fn default_config() -> PipelineConfig {
    PipelineConfig::default(format!("C:\\Temp\\{DEFAULT_OUTPUT_DIR}"))
}

fn runner() -> Result<PsRunner, PsRunnerError> {
    let mut loaded = Details::new();
    loaded.insert("Install-DriverOnVM.ps1".into(), "install".into());
    loaded.insert("Verify-DriverOnVM.ps1".into(), "verify".into());
    loaded.insert("Capture-DriverLogs.ps1".into(), "capture".into());
    PsRunner::new("C:\\Temp\\scripts".into(), &loaded).map(|(runner, _)| runner)
}

fn entries(names: &[&str]) -> PackageDir {
    PackageDir::Entries(names.iter().map(|n| n.to_string()).collect())
}

fn config_for(driver_package: &str, vm_name: &str) -> PipelineConfig {
    PipelineConfig {
        driver_package: driver_package.into(),
        vm_name: vm_name.into(),
        ..default_config()
    }
}

fn pipeline(skip_verify: bool, skip_capture: bool) -> Pipeline {
    let config = PipelineConfig {
        driver_package: "C:\\pkg".into(),
        vm_name: "vm".into(),
        credential: Some(VmCredential { username: "u".into(), password: "p".into() }),
        skip_verify,
        skip_capture,
        capture_duration: 12,
        output_dir: "C:\\out".into(),
        ..default_config()
    };
    Pipeline::new(config, &entries(&["mydriver.inf"]), runner()).unwrap()
}

fn script(exit_code: i32, stdout: &str, stderr: &str) -> Result<ScriptResult, PsRunnerError> {
    Ok(ScriptResult {
        exit_code,
        stdout: stdout.into(),
        stderr: stderr.into(),
        duration: Duration::from_secs(1),
    })
}

fn ok(stdout: &str) -> Result<ScriptResult, PsRunnerError> {
    script(0, stdout, "")
}

fn secs(n: u64) -> Duration {
    Duration::from_secs(n)
}

fn found() -> FoundFiles {
    FoundFiles {
        dbgview_log: true,
        etl_file: true,
        xml_file: false,
        summary_file: true,
    }
}

/// What the scripts of a run give, by their names.
struct Script {
    name: &'static str,
    outcome: fn() -> Result<ScriptResult, PsRunnerError>,
}

/// Drives a run whose clock moves ten seconds with every event; every script that is not
/// named succeeds.
fn drive(pipeline: &mut Pipeline, scripts: &[Script]) -> (SmoketestReport, Vec<String>) {
    let mut log = Vec::new();
    let mut now = 100;
    let mut event = PipelineEvent::Begin;
    loop {
        let action = pipeline.run_at(event, secs(now), "20250101_120000");
        now += 10;
        event = match action {
            PipelineAction::Run(job) => {
                let outcome = match scripts.iter().find(|s| s.name == job.name) {
                    Some(s) => (s.outcome)(),
                    None => ok(""),
                };
                log.push(job.name);
                PipelineEvent::Script(outcome)
            }
            PipelineAction::Wait(n) => {
                log.push(format!("wait {n}"));
                PipelineEvent::Waited
            }
            PipelineAction::Find(files) => {
                log.push(format!("find {}", files.etl_file));
                PipelineEvent::Found(found())
            }
            PipelineAction::Done(report) => return (report, log),
            PipelineAction::Unexpected => panic!("the pipeline did not expect this"),
        };
    }
}

fn statuses(report: &SmoketestReport) -> Vec<&'static str> {
    report
        .steps
        .iter()
        .map(|s| match s.status {
            StepStatus::Pass => "pass",
            StepStatus::Fail(_) => "fail",
            StepStatus::Skipped => "skipped",
        })
        .collect()
}

fn names(report: &SmoketestReport) -> Vec<&str> {
    report.steps.iter().map(|s| s.name.as_str()).collect()
}

const STEPS: [&str; 4] = [
    "Starting log capture",
    "Installing driver package",
    "Verifying driver on VM",
    "Collecting captured logs",
];

// -------------------------------------------------------------------------
// extract_detail
// -------------------------------------------------------------------------

#[test]
fn extract_detail_colon_format() {
    let stdout = "Published Name: oem3.inf\nVersion: 1.0.0\n";
    assert_eq!(
        extract_detail(stdout, "Published Name"),
        Some("oem3.inf".into())
    );
    assert_eq!(extract_detail(stdout, "Version"), Some("1.0.0".into()));
}

#[test]
fn extract_detail_equals_format() {
    let stdout = "Device Status = OK\n";
    assert_eq!(
        extract_detail(stdout, "Device Status"),
        Some("OK".into())
    );
}

#[test]
fn extract_detail_missing_key() {
    let stdout = "some random output\n";
    assert_eq!(extract_detail(stdout, "Published Name"), None);
}

#[test]
fn extract_detail_white_space_and_line_endings() {
    let stdout = "noise\r\n\t Version\t =  1.2 3 \r\nVersion: 9\r\n";
    assert_eq!(extract_detail(stdout, "Version"), Some("1.2 3".into()));
    assert_eq!(extract_detail("Key:value", "Key"), Some("value".into()));
    assert_eq!(extract_detail("Key:  = x", "Key"), Some("= x".into()));
}

#[test]
fn extract_detail_passes_over_lines_without_a_value() {
    let stdout = "Version:\nVersioning: no\nVersion 1\n The Version: 2\nVersion= 3";
    assert_eq!(extract_detail(stdout, "Version"), Some("3".into()));
    assert_eq!(extract_detail("", "Version"), None);
    assert_eq!(extract_detail("Version: \u{a0}\n", "Version"), None);
}

// -------------------------------------------------------------------------
// Configuration
// -------------------------------------------------------------------------

#[test]
fn default_config_values() {
    let cfg = default_config();
    assert_eq!(cfg.capture_duration, 30);
    assert!(!cfg.skip_verify);
    assert!(!cfg.skip_capture);
    assert!(!cfg.no_cleanup);
}

#[test]
fn default_config_capture_duration() {
    let cfg = default_config();
    assert_eq!(cfg.capture_duration, 30);
}

#[test]
fn default_config_skips_are_false() {
    let cfg = default_config();
    assert!(!cfg.skip_verify);
    assert!(!cfg.skip_capture);
    assert!(!cfg.no_cleanup);
}

#[test]
fn default_config_driver_package_is_empty() {
    let cfg = default_config();
    assert!(cfg.driver_package.is_empty());
}

#[test]
fn pipeline_config_default_has_nonempty_output_dir() {
    let cfg = default_config();
    assert!(
        !cfg.output_dir.is_empty(),
        "default output_dir should be non-empty"
    );
    assert!(cfg.output_dir.ends_with("driver-test-logs"));
}

// -------------------------------------------------------------------------
// Construction
// -------------------------------------------------------------------------

#[test]
fn new_rejects_missing_directory() {
    let cfg = config_for(r"C:\nonexistent\path\12345", "test-vm");
    let err = Pipeline::new(cfg, &PackageDir::Missing, runner()).err().unwrap();
    assert!(
        matches!(err, SmoketestError::PackageValidation { .. }),
        "expected PackageValidation, got: {err:?}"
    );
}

#[test]
fn new_rejects_directory_without_inf() {
    let cfg = config_for("pipeline-test-no-inf", "test-vm");
    let err = Pipeline::new(cfg, &entries(&["driver.sys"]), runner()).err().unwrap();
    assert!(
        matches!(err, SmoketestError::PackageValidation { .. }),
        "expected PackageValidation, got: {err:?}"
    );
}

#[test]
fn new_succeeds_with_valid_package() {
    let cfg = config_for("pipeline-test-valid", "test-vm");
    let pipeline = Pipeline::new(cfg, &entries(&["mydriver.inf"]), runner()).unwrap();
    assert_eq!(pipeline.driver_name(), "mydriver");
}

#[test]
fn new_fails_for_empty_nonexistent_directory() {
    let cfg = config_for(r"C:\__nonexistent_smoketest_dir_97531__", "test-vm");
    let err = Pipeline::new(cfg, &PackageDir::Missing, runner()).err().unwrap();
    assert!(matches!(err, SmoketestError::PackageValidation { .. }));
    assert!(err.message().contains("does not exist"));
}

#[test]
fn new_fails_when_inf_missing() {
    let cfg = config_for("dir", "test-vm");
    let err = Pipeline::new(cfg, &entries(&["driver.sys"]), runner()).err().unwrap();
    assert!(matches!(err, SmoketestError::PackageValidation { .. }));
    assert!(err.message().contains(".inf"));
}

#[test]
fn new_fails_for_empty_directory() {
    let cfg = config_for("dir", "test-vm");
    let err = Pipeline::new(cfg, &entries(&[]), runner()).err().unwrap();
    assert!(matches!(err, SmoketestError::PackageValidation { .. }));
}

#[test]
fn new_succeeds_with_both_inf_and_sys() {
    let cfg = config_for("dir", "test-vm");
    let result = Pipeline::new(cfg, &entries(&["sample.inf", "sample.sys"]), runner());
    assert!(
        !matches!(result, Err(SmoketestError::PackageValidation { .. })),
        "should not get PackageValidation with valid .inf, got: {:?}",
        result.err()
    );
}

#[test]
fn new_succeeds_case_insensitive_extensions() {
    let cfg = config_for("dir", "test-vm");
    let result = Pipeline::new(cfg, &entries(&["DRIVER.INF", "DRIVER.SYS"]), runner());
    assert!(
        !matches!(result, Err(SmoketestError::PackageValidation { .. })),
        "should not get PackageValidation with uppercase .INF, got: {:?}",
        result.err()
    );
}

#[test]
fn new_ignores_unrelated_files() {
    let cfg = config_for("dir", "vm");
    let package = entries(&["readme.txt", "driver.cat", "driver.sys", "driver.inf"]);
    let result = Pipeline::new(cfg, &package, runner());
    assert!(
        !matches!(result, Err(SmoketestError::PackageValidation { .. })),
        "should not get PackageValidation with extra files, got: {:?}",
        result.err()
    );
}

#[test]
fn pipeline_config_with_credential_does_not_break_construction() {
    let cfg = PipelineConfig {
        credential: Some(VmCredential {
            username: "admin".into(),
            password: "password".into(),
        }),
        ..config_for("dir", "cred-test-vm")
    };
    let result = Pipeline::new(cfg, &entries(&["driver.inf", "driver.sys"]), runner());
    assert!(
        !matches!(result, Err(SmoketestError::PackageValidation { .. })),
        "credentials should not cause PackageValidation failure: {:?}",
        result.err()
    );
}

#[test]
fn package_errors_name_the_directory() {
    let message = |package: &PackageDir| package_driver("D:\\p", package).unwrap_err().message();
    assert_eq!(
        message(&PackageDir::Missing),
        "Package validation failed: driver package directory does not exist: D:\\p"
    );
    assert_eq!(
        message(&PackageDir::Unreadable("denied".into())),
        "Package validation failed: cannot read driver package directory D:\\p: denied"
    );
    assert_eq!(
        message(&entries(&["a.sys"])),
        "Package validation failed: no .inf file found in driver package: D:\\p"
    );
}

#[test]
fn first_manifest_names_the_driver() {
    let package = entries(&["b.txt", "first.driver.Inf", "second.inf"]);
    assert_eq!(package_driver("p", &package).unwrap(), "first.driver");
}

#[test]
fn manifests_are_told_by_their_extension() {
    assert_eq!(inf_driver("a.inf").as_deref(), Some("a"));
    assert_eq!(inf_driver("A.INF").as_deref(), Some("A"));
    assert_eq!(inf_driver(".x.inf").as_deref(), Some(".x"));
    for other in ["", "inf", ".inf", "a.inf.txt", "a.", "a.in", "a.inff", "ainf"] {
        assert_eq!(inf_driver(other), None, "{other}");
    }
    for name in ["a.inf", ".inf", "a.b.INF", "inf", "a.", ".a.inf", "x.y"] {
        let path = std::path::Path::new(name);
        let is_inf = path.extension().is_some_and(|e| e.eq_ignore_ascii_case("inf"));
        let stem = path.file_stem().unwrap().to_string_lossy().to_string();
        assert_eq!(inf_driver(name), if is_inf { Some(stem) } else { None }, "{name}");
    }
}

#[test]
fn package_problems_come_before_runner_problems() {
    let broken = || Err(PsRunnerError::EmptyScript("x.ps1".into()));
    let err = Pipeline::new(config_for("d", "v"), &entries(&[]), broken()).err().unwrap();
    assert!(matches!(err, SmoketestError::PackageValidation { .. }));
    let err = Pipeline::new(config_for("d", "v"), &entries(&["a.inf"]), broken()).err().unwrap();
    assert!(matches!(err, SmoketestError::Io(m) if m.starts_with("script 'x.ps1' has no content")));
}

#[test]
fn runner_io_errors_keep_their_message() {
    assert_eq!(runner_failure(PsRunnerError::Io("disk full".into())).message(), "disk full");
    assert_eq!(
        runner_failure(PsRunnerError::ScriptNotFound("a".into())).message(),
        "script not found: a"
    );
}

#[test]
fn pipeline_scripts_dir_contains_pid_or_random_suffix() {
    let pid: u32 = 4242;
    let dir_name = scripts_dir_name(pid, 123_456_789);
    let expected_prefix = format!("driver-test-cli-v2-scripts-{pid}-");
    assert!(
        dir_name.starts_with(&expected_prefix),
        "scripts dir pattern should include PID"
    );
    // Must contain some hex suffix (not just "scripts")
    assert!(
        dir_name.len() > "driver-test-cli-v2-scripts-".len() + 1,
        "dir name should have PID and random suffix appended: {dir_name}"
    );
    assert_eq!(dir_name, "driver-test-cli-v2-scripts-4242-75bcd15");
    assert_eq!(scripts_dir_name(0, 0), "driver-test-cli-v2-scripts-0-0");
    assert_ne!(scripts_dir_name(1, 0x11), scripts_dir_name(11, 0x1));
}

#[test]
fn pipeline_debug_text() {
    let p = pipeline(false, false);
    assert_eq!(p.debug_text(), "Pipeline { driver_name: \"mydriver\", vm_name: \"vm\", .. }");
    assert!(p.cleans_up());
    assert_eq!(p.runner().scripts_dir(), "C:\\Temp\\scripts");
    let keep = PipelineConfig { no_cleanup: true, ..config_for("d", "v") };
    assert!(!Pipeline::new(keep, &entries(&["a.inf"]), runner()).unwrap().cleans_up());
}

// -------------------------------------------------------------------------
// Steps
// -------------------------------------------------------------------------

#[test]
fn installed_driver_is_recorded() {
    let stdout = "Published Name: oem3.inf\n";
    let step = step_install(ok(stdout), secs(3));
    assert_eq!(step.name, INSTALL_STEP);
    assert!(matches!(step.status, StepStatus::Pass));
    assert_eq!(step.exit_code, Some(0));
    assert_eq!(step.duration, secs(3));
    assert_eq!(step.details.get("published_name").unwrap(), "oem3.inf");
    assert_eq!(step.details.get("stdout").unwrap(), stdout);
    assert!(!step.is_infra_failure);
    assert_eq!(step_install(ok("nothing"), secs(3)).details.len(), 1);
}

#[test]
fn install_failures_are_classified() {
    for (code, infra) in [(1, false), (2, true), (3, true), (4, false), (5, false), (6, true), (-1, false)] {
        let step = step_install(script(code, "out", " bad \n"), secs(1));
        assert!(matches!(
            &step.status,
            StepStatus::Fail(m) if *m == format!("install failed (exit code {code}): bad")
        ));
        assert_eq!(step.exit_code, Some(code));
        assert_eq!(step.details.get("stdout").unwrap(), "out");
        assert_eq!(step.is_infra_failure, infra, "exit code {code}");
    }
    let step = step_install(Err(PsRunnerError::Timeout(secs(120))), secs(120));
    assert!(matches!(
        &step.status,
        StepStatus::Fail(m) if m == "install error: script timed out after 120s"
    ));
    assert_eq!(step.exit_code, None);
    assert_eq!(step.details.len(), 0);
    assert!(step.is_infra_failure);
}

#[test]
fn verification_results() {
    let step = step_verify(ok("Device Status = OK\n"), secs(2));
    assert_eq!(step.name, VERIFY_STEP);
    assert!(matches!(step.status, StepStatus::Pass));
    assert_eq!(step.details.get("device_status").unwrap(), "OK");
    let step = step_verify(script(2, "", "mismatch"), secs(2));
    assert!(matches!(
        &step.status,
        StepStatus::Fail(m) if m == "verification failed (exit code 2): mismatch"
    ));
    assert!(!step.is_infra_failure);
    let step = step_verify(Err(PsRunnerError::Io("gone".into())), secs(2));
    assert!(matches!(&step.status, StepStatus::Fail(m) if m == "verify error: I/O error: gone"));
    assert!(step.is_infra_failure);
}

#[test]
fn capture_steps() {
    let step = step_start_capture(None, secs(4));
    assert_eq!(step.name, START_STEP);
    assert!(matches!(step.status, StepStatus::Pass));
    assert_eq!(step.exit_code, Some(0));
    let failure = PsRunnerError::ScriptFailed { exit_code: 1, stderr: "no VM".into() };
    let step = step_start_capture(Some(&failure), secs(4));
    assert!(matches!(
        &step.status,
        StepStatus::Fail(m) if m == "start capture error: script failed with exit code 1: no VM"
    ));
    assert!(step.is_infra_failure);
    let step = step_stop_capture(None, secs(0));
    assert_eq!(step.name, COLLECT_STEP);
    assert!(matches!(&step.status, StepStatus::Fail(m) if m == "no active capture session to stop"));
    let step = step_stop_capture(Some(Err(PsRunnerError::Io("gone".into()))), secs(0));
    assert!(matches!(&step.status, StepStatus::Fail(m) if m == "stop/extract error: I/O error: gone"));
    assert!(step.is_infra_failure);
}

#[test]
fn skipped_steps() {
    let step = skipped_step("x");
    assert!(matches!(step.status, StepStatus::Skipped));
    assert_eq!(step.details.len(), 0);
    let reason = reason_to_skip(&StepStatus::Fail("bad".into()));
    assert_eq!(reason, "skipped due to prior failure: bad");
    assert_eq!(reason_to_skip(&StepStatus::Pass), "skipped");
    assert_eq!(given_up_step("x", &reason).details.get("reason").unwrap(), &reason);
}

#[test]
fn driver_info_takes_the_last_finding() {
    let steps = vec![
        step_install(ok("Published Name: oem3.inf\nVersion: 1\nProvider: Contoso\n"), secs(1)),
        step_verify(ok("Version: 2\nHardware ID: ROOT\\X\nInstance ID = 7\n"), secs(1)),
    ];
    let info = driver_info(&"mydriver".to_string(), &steps);
    assert_eq!(info.inf, "mydriver.inf");
    assert_eq!(info.published_name.as_deref(), Some("oem3.inf"));
    assert_eq!(info.version.as_deref(), Some("2"));
    assert_eq!(info.provider.as_deref(), Some("Contoso"));
    assert_eq!(info.hardware_id.as_deref(), Some("ROOT\\X"));
    assert_eq!(info.instance_id.as_deref(), Some("7"));
    let nothing = driver_info(&"d".to_string(), &vec![]);
    assert_eq!(nothing.inf, "d.inf");
    assert_eq!(nothing.version, None);
}

// -------------------------------------------------------------------------
// Runs
// -------------------------------------------------------------------------

#[test]
fn full_run_passes() {
    let scripts = [
        Script { name: "Install-DriverOnVM.ps1", outcome: || ok("Published Name: oem3.inf\n") },
        Script { name: "Verify-DriverOnVM.ps1", outcome: || ok("Device Status: OK\nVersion: 1.0\n") },
    ];
    let mut p = pipeline(false, false);
    let (report, log) = drive(&mut p, &scripts);
    assert_eq!(
        log,
        [
            "_start_capture.ps1",
            "Install-DriverOnVM.ps1",
            "Verify-DriverOnVM.ps1",
            "wait 12",
            "_stop_capture.ps1",
            "_extract_capture.ps1",
            "find C:\\out\\DriverTrace_20250101_120000.etl",
        ]
    );
    assert!(report.success);
    assert_eq!(report.exit_code(), 0);
    assert_eq!(report.vm_name, "vm");
    assert_eq!(names(&report), STEPS);
    assert_eq!(statuses(&report), ["pass"; 4]);
    assert_eq!(report.driver.inf, "mydriver.inf");
    assert_eq!(report.driver.published_name.as_deref(), Some("oem3.inf"));
    assert_eq!(report.driver.version.as_deref(), Some("1.0"));
    // Seven events after the first, ten seconds apart.
    assert_eq!(report.duration, secs(70));
    let durations: Vec<Duration> = report.steps.iter().map(|s| s.duration).collect();
    assert_eq!(durations, [secs(10), secs(10), secs(10), secs(30)]);
    let collected = &report.steps[3].details;
    assert_eq!(collected.len(), 4);
    assert_eq!(collected.get("output_dir").unwrap(), "C:\\out");
    assert_eq!(collected.get("dbgview_log").unwrap(), "C:\\out\\dbgview_20250101_120000.log");
    assert_eq!(collected.get("etl_file").unwrap(), "C:\\out\\DriverTrace_20250101_120000.etl");
    assert_eq!(collected.get("xml_file"), None);
    assert_eq!(
        collected.get("summary_file").unwrap(),
        "C:\\out\\DriverTrace_20250101_120000_summary.txt"
    );
}

#[test]
fn scripts_are_pointed_at_vm_and_package() {
    let mut p = pipeline(false, true);
    let check = |job: ScriptJob, name: &str, timeout: u64| {
        assert_eq!(job.name, name);
        assert_eq!(job.args, ["-VMName", "vm", "-DriverPath", "C:\\pkg"]);
        assert_eq!(job.timeout, secs(timeout));
        assert_eq!(job.credential.unwrap().username, "u");
        assert!(job.content.is_none());
        assert!(!job.elevated);
    };
    match p.run(PipelineEvent::Begin, secs(0)) {
        PipelineAction::Run(job) => check(job, "Install-DriverOnVM.ps1", 120),
        _ => panic!("expected the install script"),
    }
    match p.run(PipelineEvent::Script(ok("")), secs(1)) {
        PipelineAction::Run(job) => check(job, "Verify-DriverOnVM.ps1", 60),
        _ => panic!("expected the verify script"),
    }
}

#[test]
fn pipeline_step_names_include_new_capture_steps() {
    let (report, _) = drive(&mut pipeline(false, false), &[]);
    let names = names(&report);
    assert!(
        names.contains(&"Starting log capture"),
        "pipeline must have a 'Starting log capture' step"
    );
    assert!(
        names.contains(&"Collecting captured logs"),
        "pipeline must have a 'Collecting captured logs' step"
    );
    assert!(
        !names.contains(&"Capturing driver logs"),
        "pipeline must NOT use the old 'Capturing driver logs' step name"
    );
}

#[test]
fn skip_capture_skips_both_start_and_stop_steps() {
    let (report, log) = drive(&mut pipeline(false, true), &[]);
    assert_eq!(names(&report), STEPS);
    assert_eq!(statuses(&report), ["skipped", "pass", "pass", "skipped"]);
    assert_eq!(log, ["Install-DriverOnVM.ps1", "Verify-DriverOnVM.ps1"]);
    assert_eq!(report.steps[3].details.len(), 0);
    assert!(report.success);
}

#[test]
fn skip_verify_skips_the_verification() {
    let (report, log) = drive(&mut pipeline(true, false), &[]);
    assert_eq!(statuses(&report), ["pass", "pass", "skipped", "pass"]);
    assert!(!log.contains(&"Verify-DriverOnVM.ps1".to_string()));
    let (report, log) = drive(&mut pipeline(true, true), &[]);
    assert_eq!(statuses(&report), ["skipped", "pass", "skipped", "skipped"]);
    assert_eq!(log, ["Install-DriverOnVM.ps1"]);
}

#[test]
fn short_circuit_remaining_steps_are_skipped() {
    let scripts =
        [Script { name: "Install-DriverOnVM.ps1", outcome: || script(1, "", "error") }];
    let (report, _) = drive(&mut pipeline(false, true), &scripts);
    let steps = &report.steps[1..];

    assert_eq!(steps.len(), 3, "should have all 3 steps after fill");

    // First step failed
    assert!(matches!(
        &steps[0].status,
        StepStatus::Fail(m) if m == "install failed (exit code 1): error"
    ));

    // Remaining steps are Skipped
    for step in &steps[1..] {
        assert!(
            matches!(step.status, StepStatus::Skipped),
            "step '{}' should be Skipped, got: {:?}",
            step.name,
            step.status
        );
        let reason = step.details.get("reason").expect("should have reason");
        assert!(
            reason.contains("skipped due to prior failure"),
            "reason should explain skip: {reason}"
        );
        assert_eq!(
            reason,
            "skipped due to prior failure: install failed (exit code 1): error"
        );
    }
    assert!(!report.success);
    assert_eq!(report.exit_code(), 1);
}

#[test]
fn every_failure_stops_the_run() {
    let cases: [(&str, usize, i32); 5] = [
        ("_start_capture.ps1", 0, 2),
        ("Install-DriverOnVM.ps1", 1, 1),
        ("Verify-DriverOnVM.ps1", 2, 1),
        ("_stop_capture.ps1", 3, 2),
        ("_extract_capture.ps1", 3, 2),
    ];
    for (name, at, exit_code) in cases {
        let scripts = [Script { name, outcome: || script(5, "", "bad") }];
        let (report, log) = drive(&mut pipeline(false, false), &scripts);
        assert_eq!(log.last().map(String::as_str), Some(name));
        assert_eq!(names(&report), STEPS);
        for (i, status) in statuses(&report).iter().enumerate() {
            let expected = if i < at { "pass" } else if i == at { "fail" } else { "skipped" };
            assert_eq!(*status, expected, "{name}: step {i}");
        }
        assert_eq!(report.exit_code(), exit_code, "{name}");
    }
}

#[test]
fn runner_errors_are_failures_of_the_environment() {
    for name in [
        "_start_capture.ps1",
        "Install-DriverOnVM.ps1",
        "Verify-DriverOnVM.ps1",
        "_stop_capture.ps1",
        "_extract_capture.ps1",
    ] {
        let scripts =
            [Script { name, outcome: || Err(PsRunnerError::Timeout(Duration::from_secs(1))) }];
        let (report, _) = drive(&mut pipeline(false, false), &scripts);
        assert!(report.has_infra_failure(), "{name}");
        assert_eq!(report.exit_code(), 2, "{name}");
    }
}

#[test]
fn unexpected_events_change_nothing() {
    let mut p = pipeline(false, false);
    assert!(matches!(p.run(PipelineEvent::Waited, secs(0)), PipelineAction::Unexpected));
    assert!(matches!(p.run(PipelineEvent::Begin, secs(0)), PipelineAction::Run(_)));
    assert!(matches!(p.run(PipelineEvent::Begin, secs(1)), PipelineAction::Unexpected));
    assert!(matches!(p.run(PipelineEvent::Found(found()), secs(2)), PipelineAction::Unexpected));
    match p.run(PipelineEvent::Script(ok("")), secs(3)) {
        PipelineAction::Run(job) => assert_eq!(job.name, "Install-DriverOnVM.ps1"),
        _ => panic!("expected the install script"),
    }
}

#[test]
fn pipeline_can_run_again() {
    let mut p = pipeline(false, false);
    let failing = [Script { name: "Install-DriverOnVM.ps1", outcome: || script(5, "", "bad") }];
    let (first, _) = drive(&mut p, &failing);
    assert!(!first.success);
    let (second, _) = drive(&mut p, &[]);
    assert!(second.success);
    assert_eq!(second.steps.len(), 4);
}
