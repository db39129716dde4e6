use driver_test_cli_v2::capture::{
    capture_started, host_copy, start_capture, start_capture_at, stop_and_extract, wait_capture,
    CaptureAction, CaptureConfig, CaptureEvent, CaptureSession, FoundFiles, KMDF_PROVIDER_GUID,
};
use driver_test_cli_v2::duration::Duration;
use driver_test_cli_v2::ps_runner::{PsRunnerError, ScriptResult};
use driver_test_cli_v2::scripts::{EXTRACT_SCRIPT, START_SCRIPT, STOP_SCRIPT};

fn config() -> CaptureConfig {
    CaptureConfig {
        vm_name: "TestVM".into(),
        capture_duration: 30,
        output_dir: r"C:\output".into(),
    }
}

fn session() -> CaptureSession {
    start_capture_at(&config(), "20250101_120000").0
}

fn result(exit_code: i32) -> ScriptResult {
    ScriptResult {
        exit_code,
        stdout: String::new(),
        stderr: "boom".into(),
        duration: Duration::from_secs(1),
    }
}

#[test]
fn capture_config_fields() {
    let cfg = CaptureConfig {
        vm_name: "TestVM".into(),
        capture_duration: 30,
        output_dir: r"C:\out".into(),
    };
    assert_eq!(cfg.vm_name, "TestVM");
    assert_eq!(cfg.capture_duration, 30);
}

#[test]
fn capture_config_can_be_constructed_with_reasonable_defaults() {
    let cfg = CaptureConfig {
        vm_name: "TestVM".into(),
        capture_duration: 30,
        output_dir: r"C:\DriverLogs".into(),
    };
    assert_eq!(cfg.vm_name, "TestVM");
    assert_eq!(cfg.capture_duration, 30);
    assert_eq!(cfg.output_dir, r"C:\DriverLogs");
}

#[test]
fn capture_session_contains_expected_path_patterns() {
    let session = CaptureSession {
        vm_name: "TestVM".into(),
        etw_session_name: "DriverTrace_20250101_120000".into(),
        guest_log_dir: r"C:\DriverLogs".into(),
        guest_dbgview_log: r"C:\DriverLogs\dbgview_20250101_120000.log".into(),
        guest_etl_path: r"C:\DriverLogs\DriverTrace_20250101_120000.etl".into(),
        output_dir: r"C:\output".into(),
    };

    assert!(
        session.etw_session_name.starts_with("DriverTrace_"),
        "session name should have DriverTrace_ prefix: {}",
        session.etw_session_name,
    );
    assert_eq!(
        session.guest_log_dir, r"C:\DriverLogs",
        "guest dir should be C:\\DriverLogs"
    );
    assert!(
        session.guest_dbgview_log.starts_with(r"C:\DriverLogs\"),
        "dbgview log should be under guest_log_dir: {}",
        session.guest_dbgview_log,
    );
    assert!(
        session.guest_etl_path.ends_with(".etl"),
        "ETL path should end with .etl: {}",
        session.guest_etl_path,
    );
}

#[test]
fn session_is_named_after_its_timestamp() {
    let (session, job) = start_capture_at(&config(), "20250101_120000");
    assert_eq!(session.vm_name, "TestVM");
    assert_eq!(session.etw_session_name, "DriverTrace_20250101_120000");
    assert_eq!(session.guest_log_dir, r"C:\DriverLogs");
    assert_eq!(session.guest_dbgview_log, r"C:\DriverLogs\dbgview_20250101_120000.log");
    assert_eq!(session.guest_etl_path, r"C:\DriverLogs\DriverTrace_20250101_120000.etl");
    assert_eq!(session.output_dir, r"C:\output");
    assert_eq!(job.name, "_start_capture.ps1");
    assert_eq!(job.content.as_deref(), Some(START_SCRIPT));
    assert_eq!(
        job.args,
        [
            "-VMName",
            "TestVM",
            "-LogDir",
            r"C:\DriverLogs",
            "-DbgViewLog",
            r"C:\DriverLogs\dbgview_20250101_120000.log",
            "-EtlPath",
            r"C:\DriverLogs\DriverTrace_20250101_120000.etl",
            "-SessionName",
            "DriverTrace_20250101_120000",
            "-ProviderGuid",
            KMDF_PROVIDER_GUID,
        ]
    );
    assert_eq!(job.timeout, Duration::from_secs(180));
    assert!(job.credential.is_none());
    assert!(!job.elevated);
}

#[test]
fn session_started_now_has_the_same_form() {
    let (session, job) = start_capture(&config());
    let timestamp = session.etw_session_name.strip_prefix("DriverTrace_").unwrap();
    assert_eq!(timestamp.len(), 15);
    let (again, job_again) = start_capture_at(&config(), timestamp);
    assert_eq!(session.guest_etl_path, again.guest_etl_path);
    assert_eq!(job.args, job_again.args);
}

#[test]
fn sessions_of_different_moments_share_no_file() {
    let a = start_capture_at(&config(), "20250101_120000").0;
    let b = start_capture_at(&config(), "20250101_120001").0;
    assert_ne!(a.etw_session_name, b.etw_session_name);
    assert_ne!(a.guest_dbgview_log, b.guest_dbgview_log);
    assert_ne!(a.guest_etl_path, b.guest_etl_path);
}

#[test]
fn failed_start_gives_no_session() {
    assert!(capture_started(session(), Ok(result(0))).is_ok());
    assert!(matches!(
        capture_started(session(), Ok(result(4))),
        Err(PsRunnerError::ScriptFailed { exit_code: 4, stderr }) if stderr == "boom"
    ));
    assert!(matches!(
        capture_started(session(), Err(PsRunnerError::Io("x".into()))),
        Err(PsRunnerError::Io(_))
    ));
}

#[test]
fn waits_add_up_to_the_duration() {
    for total in [0, 1, 4, 5, 6, 30, 62] {
        let mut elapsed = 0;
        while let Some(secs) = wait_capture(total, elapsed) {
            assert!(1 <= secs && secs <= 5);
            elapsed += secs;
        }
        assert_eq!(elapsed, total);
    }
    assert_eq!(wait_capture(12, 10), Some(2));
    assert_eq!(wait_capture(12, 5), Some(5));
    assert_eq!(wait_capture(12, 13), None);
    assert_eq!(wait_capture(u32::MAX, u32::MAX - 1), Some(1));
}

#[test]
fn stopping_a_session_runs_two_scripts() {
    let session = session();
    match stop_and_extract(&session, CaptureEvent::Begin) {
        CaptureAction::Stop(job) => {
            assert_eq!(job.name, "_stop_capture.ps1");
            assert_eq!(job.content.as_deref(), Some(STOP_SCRIPT));
            assert_eq!(
                job.args,
                [
                    "-VMName",
                    "TestVM",
                    "-SessionName",
                    "DriverTrace_20250101_120000",
                    "-EtlPath",
                    r"C:\DriverLogs\DriverTrace_20250101_120000.etl",
                ]
            );
            assert_eq!(job.timeout, Duration::from_secs(120));
        }
        _ => panic!("expected the stop script"),
    }
    match stop_and_extract(&session, CaptureEvent::Stopped(Ok(result(0)))) {
        CaptureAction::Extract(job) => {
            assert_eq!(job.name, "_extract_capture.ps1");
            assert_eq!(job.content.as_deref(), Some(EXTRACT_SCRIPT));
            assert_eq!(
                job.args,
                [
                    "-VMName",
                    "TestVM",
                    "-DbgViewLog",
                    r"C:\DriverLogs\dbgview_20250101_120000.log",
                    "-EtlPath",
                    r"C:\DriverLogs\DriverTrace_20250101_120000.etl",
                    "-XmlPath",
                    r"C:\DriverLogs\DriverTrace_20250101_120000.xml",
                    "-SummaryPath",
                    r"C:\DriverLogs\DriverTrace_20250101_120000_summary.txt",
                    "-OutputDir",
                    r"C:\output",
                ]
            );
            assert_eq!(job.timeout, Duration::from_secs(120));
        }
        _ => panic!("expected the extract script"),
    }
    match stop_and_extract(&session, CaptureEvent::Extracted(Ok(result(0)))) {
        CaptureAction::Find(files) => {
            assert_eq!(files.dbgview_log, r"C:\output\dbgview_20250101_120000.log");
            assert_eq!(files.etl_file, r"C:\output\DriverTrace_20250101_120000.etl");
            assert_eq!(files.xml_file, r"C:\output\DriverTrace_20250101_120000.xml");
            assert_eq!(files.summary_file, r"C:\output\DriverTrace_20250101_120000_summary.txt");
        }
        _ => panic!("expected a search"),
    }
}

#[test]
fn capture_result_holds_the_copies_that_are_there() {
    let found = FoundFiles {
        dbgview_log: true,
        etl_file: false,
        xml_file: true,
        summary_file: false,
    };
    match stop_and_extract(&session(), CaptureEvent::Found(found)) {
        CaptureAction::Done(Ok(r)) => {
            assert_eq!(r.dbgview_log.as_deref(), Some(r"C:\output\dbgview_20250101_120000.log"));
            assert_eq!(r.etl_file, None);
            assert_eq!(r.xml_file.as_deref(), Some(r"C:\output\DriverTrace_20250101_120000.xml"));
            assert_eq!(r.summary_file, None);
            assert_eq!(r.output_dir, r"C:\output");
        }
        _ => panic!("expected a result"),
    }
    let others = FoundFiles {
        dbgview_log: false,
        etl_file: true,
        xml_file: false,
        summary_file: true,
    };
    match stop_and_extract(&session(), CaptureEvent::Found(others)) {
        CaptureAction::Done(Ok(r)) => {
            assert_eq!(r.dbgview_log, None);
            assert_eq!(r.etl_file.as_deref(), Some(r"C:\output\DriverTrace_20250101_120000.etl"));
            assert_eq!(r.xml_file, None);
            assert_eq!(
                r.summary_file.as_deref(),
                Some(r"C:\output\DriverTrace_20250101_120000_summary.txt")
            );
        }
        _ => panic!("expected a result"),
    }
}

#[test]
fn copies_keep_their_names() {
    assert_eq!(host_copy(r"C:\out", r"C:\DriverLogs\a.etl"), r"C:\out\a.etl");
    assert_eq!(host_copy(r"D:\x\y", r"D:\deep\er\b.log"), r"D:\x\y\b.log");
    assert_eq!(host_copy(r"\\host\logs", r"\\?\C:\DriverLogs\a.etl"), r"\\host\logs\a.etl");
    assert_eq!(host_copy(r"\\?\C:\out", r"\\server\share\a.etl"), r"\\?\C:\out\a.etl");
}

#[test]
fn copies_of_odd_guest_paths() {
    assert_eq!(host_copy(r"C:\out", r"\\server\share"), r"C:\out\");
    assert_eq!(host_copy(r"C:\out", r"C:\DriverLogs\D:x"), "D:x");
    assert_eq!(host_copy(r"C:\out", r"\\?\C:\DriverLogs\/x"), r"C:/x");
}

#[test]
fn failing_script_ends_the_capture() {
    for event in [
        CaptureEvent::Stopped(Ok(result(9))),
        CaptureEvent::Extracted(Ok(result(9))),
    ] {
        assert!(matches!(
            stop_and_extract(&session(), event),
            CaptureAction::Done(Err(PsRunnerError::ScriptFailed { exit_code: 9, .. }))
        ));
    }
    assert!(matches!(
        stop_and_extract(&session(), CaptureEvent::Stopped(Err(PsRunnerError::Io("x".into())))),
        CaptureAction::Done(Err(PsRunnerError::Io(_)))
    ));
}

#[test]
fn every_trace_ending_in_a_path_is_replaced() {
    let mut odd = session();
    odd.guest_etl_path = r"C:\a.etl\b.etl".into();
    match stop_and_extract(&odd, CaptureEvent::Stopped(Ok(result(0)))) {
        CaptureAction::Extract(job) => {
            assert_eq!(job.args[7], r"C:\a.xml\b.xml");
            assert_eq!(job.args[9], r"C:\a_summary.txt\b_summary.txt");
        }
        _ => panic!("expected the extract script"),
    }
    match stop_and_extract(&odd, CaptureEvent::Extracted(Ok(result(0)))) {
        CaptureAction::Find(files) => {
            assert_eq!(files.xml_file, r"C:\output\b.xml");
            assert_eq!(files.summary_file, r"C:\output\b_summary.txt");
        }
        _ => panic!("expected a search"),
    }
}

#[test]
fn start_script_supports_dbgview_path() {
    assert!(START_SCRIPT.contains("DBGVIEW_PATH"));
    assert!(START_SCRIPT.starts_with("param(\n"));
    assert!(STOP_SCRIPT.contains("tracerpt $EPath -o $xmlPath -of XML -summary $summPath -y"));
    assert!(EXTRACT_SCRIPT.ends_with("}\n"));
    for script in [START_SCRIPT, STOP_SCRIPT, EXTRACT_SCRIPT] {
        assert!(!script.contains("{{") && !script.contains("}}"));
    }
}
