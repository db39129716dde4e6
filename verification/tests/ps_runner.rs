use driver_test_cli_v2::command::{quote_arg, quote_args, spawn_direct, spawn_elevated, spawn_with_credential};
use driver_test_cli_v2::details::Details;
use driver_test_cli_v2::duration::Duration;
use driver_test_cli_v2::encoding::encode_powershell_command;
use driver_test_cli_v2::ps_runner::{
    admin_probe, backoff_secs, embedded_scripts, is_running_as_admin, is_true,
    load_script_from_disk, resolve_script, retry_job, script_candidates, watchdog_step, Probe,
    ProcessExit, PsRunner, PsRunnerError, RetryEvent, RetryState, RetryStep, RunAction, RunEvent,
    ScriptJob, ScriptPaths, ScriptResult, VmCredential, WatchdogStep,
};

fn strings(texts: &[&str]) -> Vec<String> {
    texts.iter().map(|t| t.to_string()).collect()
}

fn result(exit_code: i32) -> ScriptResult {
    ScriptResult {
        exit_code,
        stdout: "out".into(),
        stderr: "boom".into(),
        duration: Duration::from_millis(100),
    }
}

fn loaded() -> Details {
    let mut d = Details::new();
    d.insert("Install-DriverOnVM.ps1".into(), "install".into());
    d.insert("Verify-DriverOnVM.ps1".into(), "verify".into());
    d.insert("Capture-DriverLogs.ps1".into(), "capture".into());
    d
}

fn runner() -> PsRunner {
    PsRunner::new("C:\\temp\\scripts".into(), &loaded()).unwrap().0
}

fn job(elevated: bool, credential: Option<VmCredential>) -> ScriptJob {
    ScriptJob {
        name: "Install-DriverOnVM.ps1".into(),
        content: None,
        args: strings(&["-VMName", "it's"]),
        timeout: Duration::from_secs(120),
        credential,
        elevated,
    }
}

fn paths() -> ScriptPaths {
    ScriptPaths {
        script: "C:\\s\\Install-DriverOnVM.ps1".into(),
        stdout_file: "C:\\s\\elevated_stdout.txt".into(),
        stderr_file: "C:\\s\\elevated_stderr.txt".into(),
    }
}

// -------------------------------------------------------------------------
// Credentials and results
// -------------------------------------------------------------------------

#[test]
fn vm_credential_construction() {
    let cred = VmCredential {
        username: "admin".into(),
        password: "s3cret!".into(),
    };
    assert_eq!(cred.username, "admin");
    assert_eq!(cred.password, "s3cret!");
}

#[test]
fn vm_credential_clone() {
    let cred = VmCredential {
        username: "user1".into(),
        password: "pass1".into(),
    };
    let cloned = cred.clone();
    assert_eq!(cloned.username, cred.username);
    assert_eq!(cloned.password, cred.password);
}

#[test]
fn vm_credential_debug_impl() {
    let cred = VmCredential {
        username: "admin".into(),
        password: "pw".into(),
    };
    let debug = cred.debug_text();
    assert!(debug.contains("VmCredential"));
    assert!(debug.contains("admin"));
}

#[test]
fn vm_credential_debug_redacts_password() {
    let cred = VmCredential {
        username: "testuser".into(),
        password: "SuperSecret123!".into(),
    };
    let debug = cred.debug_text();
    assert!(
        debug.contains("[REDACTED]"),
        "Debug output should contain [REDACTED], got: {debug}"
    );
    assert!(
        !debug.contains("SuperSecret123!"),
        "Debug output must NOT contain the actual password, got: {debug}"
    );
}

#[test]
fn vm_credential_debug_is_the_same_for_every_password() {
    let text = |password: &str| {
        VmCredential { username: "u".into(), password: password.into() }.debug_text()
    };
    assert_eq!(text("one"), text("another"));
}

#[test]
fn vm_credential_debug_escapes_the_username() {
    let cred = VmCredential {
        username: "a\"b\n".into(),
        password: "pw".into(),
    };
    assert_eq!(
        cred.debug_text(),
        "VmCredential { username: \"a\\\"b\\n\", password: \"[REDACTED]\" }"
    );
}

#[test]
fn script_result_success_predicate() {
    let ok = ScriptResult {
        exit_code: 0,
        stdout: String::new(),
        stderr: String::new(),
        duration: Duration::from_millis(100),
    };
    assert!(ok.success());

    let fail = ScriptResult {
        exit_code: 1,
        stdout: String::new(),
        stderr: "boom".into(),
        duration: Duration::from_millis(200),
    };
    assert!(!fail.success());
}

#[test]
fn script_result_success_when_exit_zero() {
    let result = ScriptResult {
        exit_code: 0,
        stdout: "all good".into(),
        stderr: String::new(),
        duration: Duration::from_millis(500),
    };
    assert!(result.success());
}

#[test]
fn script_result_failure_when_nonzero() {
    let result = ScriptResult {
        exit_code: 2,
        stdout: String::new(),
        stderr: "error occurred".into(),
        duration: Duration::from_secs(1),
    };
    assert!(!result.success());
}

#[test]
fn script_result_negative_exit_code() {
    let result = ScriptResult {
        exit_code: -1,
        stdout: String::new(),
        stderr: String::new(),
        duration: Duration::from_millis(10),
    };
    assert!(!result.success());
}

#[test]
fn script_result_field_access() {
    let result = ScriptResult {
        exit_code: 0,
        stdout: "output line".into(),
        stderr: "warning line".into(),
        duration: Duration::from_secs(5),
    };
    assert_eq!(result.exit_code, 0);
    assert_eq!(result.stdout, "output line");
    assert_eq!(result.stderr, "warning line");
    assert_eq!(result.duration, Duration::from_secs(5));
}

#[test]
fn script_result_clone() {
    let result = ScriptResult {
        exit_code: 0,
        stdout: "out".into(),
        stderr: "err".into(),
        duration: Duration::from_millis(100),
    };
    let cloned = result.clone();
    assert_eq!(cloned.exit_code, result.exit_code);
    assert_eq!(cloned.stdout, result.stdout);
    assert_eq!(cloned.duration, result.duration);
}

#[test]
fn runner_error_messages() {
    let messages = [
        PsRunnerError::Io("gone".into()).message(),
        PsRunnerError::ScriptNotFound("a.ps1".into()).message(),
        PsRunnerError::Timeout(Duration::from_secs(120)).message(),
        PsRunnerError::Timeout(Duration::from_millis(1500)).message(),
        PsRunnerError::ScriptFailed { exit_code: -3, stderr: "bad".into() }.message(),
        PsRunnerError::RetriesExhausted(4).message(),
        PsRunnerError::EmptyScript("a.ps1".into()).message(),
    ];
    assert_eq!(
        messages,
        [
            "I/O error: gone",
            "script not found: a.ps1",
            "script timed out after 120s",
            "script timed out after 1.5s",
            "script failed with exit code -3: bad",
            "all 4 retries exhausted",
            "script 'a.ps1' has no content — ensure scripts are properly bundled or available in the scripts/ directory",
        ]
    );
}

// -------------------------------------------------------------------------
// Scripts
// -------------------------------------------------------------------------

#[test]
fn embedded_scripts_map_has_all_entries() {
    let map = embedded_scripts();
    assert_eq!(map.len(), 3);
    assert!(map.contains_key("Install-DriverOnVM.ps1"));
    assert!(map.contains_key("Verify-DriverOnVM.ps1"));
    assert!(map.contains_key("Capture-DriverLogs.ps1"));
}

#[test]
fn candidates_are_tried_in_order() {
    let name = "x.ps1";
    assert_eq!(
        script_candidates("C:\\bin", name, &None),
        [
            strings(&["C:\\bin", "scripts", name]),
            strings(&["scripts", name]),
            strings(&["tools/driver-test-cli-v2/scripts", name]),
        ]
    );
    assert_eq!(
        script_candidates("C:\\bin", name, &Some("C:\\src".into()))[3],
        strings(&["C:\\src", "scripts", name])
    );
}

#[test]
fn loading_takes_the_first_script_found() {
    let probes = vec![
        Probe::Absent,
        Probe::Content("first".into()),
        Probe::Unreadable("locked".into()),
    ];
    assert_eq!(load_script_from_disk("x.ps1", &probes).unwrap(), "first");
    let unreadable = vec![Probe::Unreadable("locked".into()), Probe::Content("second".into())];
    assert!(matches!(
        load_script_from_disk("x.ps1", &unreadable),
        Err(PsRunnerError::Io(m)) if m == "locked"
    ));
    assert!(matches!(
        load_script_from_disk("x.ps1", &vec![Probe::Absent]),
        Err(PsRunnerError::ScriptNotFound(n)) if n == "x.ps1"
    ));
    assert!(matches!(
        load_script_from_disk("x.ps1", &vec![]),
        Err(PsRunnerError::ScriptNotFound(_))
    ));
}

#[test]
fn resolution_prefers_the_embedded_script() {
    let disk = "disk".to_string();
    assert_eq!(resolve_script("x", "embedded", Some(&disk)).unwrap(), "embedded");
    assert_eq!(resolve_script("x", "", Some(&disk)).unwrap(), "disk");
    let empty = String::new();
    for nothing in [None, Some(&empty)] {
        assert!(matches!(
            resolve_script("x", "", nothing),
            Err(PsRunnerError::EmptyScript(n)) if n == "x"
        ));
    }
}

#[test]
fn runner_writes_every_known_script() {
    let (runner, files) = PsRunner::new("dir".into(), &loaded()).unwrap();
    assert_eq!(runner.scripts_dir(), "dir");
    assert_eq!(files.len(), 3);
    assert_eq!(files.get("Verify-DriverOnVM.ps1").unwrap(), "verify");
}

#[test]
fn runner_needs_every_known_script() {
    let mut partial = Details::new();
    partial.insert("Install-DriverOnVM.ps1".into(), "install".into());
    partial.insert("Verify-DriverOnVM.ps1".into(), String::new());
    assert!(matches!(
        PsRunner::new("dir".into(), &partial),
        Err(PsRunnerError::EmptyScript(n)) if n == "Verify-DriverOnVM.ps1"
    ));
}

// -------------------------------------------------------------------------
// Command lines
// -------------------------------------------------------------------------

#[test]
fn arg_quoting_preserves_parameter_names_unquoted() {
    let args: Vec<String> = vec![
        "-VMName".into(),
        "my-test-vm".into(),
        "-DriverPath".into(),
        r"C:\Drivers\My Driver".into(),
    ];

    let args_str = quote_args(&args);

    // Parameter names must NOT be quoted
    assert!(
        args_str.contains("-VMName"),
        "parameter name should not be quoted: {args_str}"
    );
    assert!(
        !args_str.contains("'-VMName'"),
        "parameter name must NOT be wrapped in quotes: {args_str}"
    );
    assert!(
        args_str.contains("-DriverPath"),
        "parameter name should not be quoted: {args_str}"
    );
    assert!(
        !args_str.contains("'-DriverPath'"),
        "parameter name must NOT be wrapped in quotes: {args_str}"
    );

    // Values SHOULD be quoted
    assert!(
        args_str.contains("'my-test-vm'"),
        "values should be single-quoted: {args_str}"
    );
    assert!(
        args_str.contains(r"'C:\Drivers\My Driver'"),
        "values with spaces should be quoted: {args_str}"
    );
}

#[test]
fn arg_quoting_escapes_single_quotes_in_values() {
    let args: Vec<String> = vec!["-Param".into(), "it's a test".into()];

    let args_str = quote_args(&args);

    assert!(
        args_str.contains("'it''s a test'"),
        "single quotes in values should be doubled: {args_str}"
    );
    assert_eq!(args_str, "-Param 'it''s a test'");
}

#[test]
fn quoted_values_read_back() {
    for value in ["", "plain", "it's", "''", "'a''b'"] {
        let quoted = quote_arg(value);
        let inner = &quoted[1..quoted.len() - 1];
        assert_eq!(inner.replace("''", "'"), value);
    }
    assert_eq!(quote_arg("-Name"), "-Name");
}

#[test]
fn direct_command_line() {
    assert_eq!(
        spawn_direct("C:\\s.ps1", &strings(&["-A", "b c"])),
        ["-ExecutionPolicy", "Bypass", "-File", "C:\\s.ps1", "-A", "b c"]
    );
}

#[test]
fn elevated_command_line_without_credential() {
    let line = spawn_elevated("C:\\it's.ps1", &strings(&["-A", "b'c"]), &None, "o", "e'");
    let command = "$ErrorActionPreference = 'Stop'; $innerBytes = [System.Text.Encoding]::Unicode.GetBytes('$ErrorActionPreference = ''Stop''; try { & ''C:\\it''''s.ps1'' -A ''b''''c'' *> ''o'' 2> ''e'''''' } catch { $_ | Out-File ''e'''''' -Append; exit 1 }'); $innerCmd = [Convert]::ToBase64String($innerBytes); $proc = Start-Process powershell.exe -Verb RunAs -ArgumentList '-NoProfile','-ExecutionPolicy','Bypass','-EncodedCommand',$innerCmd -Wait -PassThru -WindowStyle Hidden; if (Test-Path 'o') { Get-Content 'o' -Raw }; if (Test-Path 'e''') { Get-Content 'e''' -Raw | Write-Error }; exit $proc.ExitCode";
    let encoded = encode_powershell_command(command);
    assert_eq!(
        line,
        ["-NoProfile", "-ExecutionPolicy", "Bypass", "-EncodedCommand", encoded.as_str()]
    );
}

#[test]
fn elevated_command_line_with_credential() {
    let credential = Some(VmCredential { username: "u'".into(), password: "p".into() });
    let line = spawn_elevated("s", &strings(&["-A"]), &credential, "o", "e");
    let command = "$ErrorActionPreference = 'Stop'; $innerBytes = [System.Text.Encoding]::Unicode.GetBytes('$ErrorActionPreference = ''Stop''; try { $secPass = ConvertTo-SecureString ''p'' -AsPlainText -Force; $cred = New-Object System.Management.Automation.PSCredential(''u'''''',$secPass); & ''s'' -A -Credential $cred *> ''o'' 2> ''e'' } catch { $_ | Out-File ''e'' -Append; exit 1 }'); $innerCmd = [Convert]::ToBase64String($innerBytes); $proc = Start-Process powershell.exe -Verb RunAs -ArgumentList '-NoProfile','-ExecutionPolicy','Bypass','-EncodedCommand',$innerCmd -Wait -PassThru -WindowStyle Hidden; if (Test-Path 'o') { Get-Content 'o' -Raw }; if (Test-Path 'e') { Get-Content 'e' -Raw | Write-Error }; exit $proc.ExitCode";
    assert_eq!(line[4], encode_powershell_command(command));
}

#[test]
fn elevated_session_gets_the_arguments_as_they_are_quoted() {
    let args = strings(&["-DriverPath", "C:\\My Drivers\\it's", "-Force"]);
    let line = spawn_elevated("C:\\s.ps1", &args, &None, "o", "e");
    let inner = format!(
        "$ErrorActionPreference = 'Stop'; try {{ & 'C:\\s.ps1' {} *> 'o' 2> 'e' }} catch {{ $_ | Out-File 'e' -Append; exit 1 }}",
        quote_args(&args)
    );
    let command = format!(
        "$ErrorActionPreference = 'Stop'; $innerBytes = [System.Text.Encoding]::Unicode.GetBytes('{}'); $innerCmd = [Convert]::ToBase64String($innerBytes); $proc = Start-Process powershell.exe -Verb RunAs -ArgumentList '-NoProfile','-ExecutionPolicy','Bypass','-EncodedCommand',$innerCmd -Wait -PassThru -WindowStyle Hidden; if (Test-Path 'o') {{ Get-Content 'o' -Raw }}; if (Test-Path 'e') {{ Get-Content 'e' -Raw | Write-Error }}; exit $proc.ExitCode",
        inner.replace('\'', "''")
    );
    assert_eq!(line[4], encode_powershell_command(&command));
}

#[test]
fn credential_command_line() {
    let credential = VmCredential { username: "dom\\u'".into(), password: "p'w".into() };
    let line = spawn_with_credential("C:\\it's.ps1", &strings(&["-A", "b c"]), &credential);
    let command = "$secPass = ConvertTo-SecureString 'p''w' -AsPlainText -Force; $cred = New-Object System.Management.Automation.PSCredential('dom\\u''',$secPass); & 'C:\\it''s.ps1' -A 'b c' -Credential $cred; exit $LASTEXITCODE";
    let encoded = encode_powershell_command(command);
    assert_eq!(
        line,
        ["-NoProfile", "-ExecutionPolicy", "Bypass", "-EncodedCommand", encoded.as_str()]
    );
}

// -------------------------------------------------------------------------
// Runs
// -------------------------------------------------------------------------

#[test]
fn missing_script_ends_the_run() {
    let action = runner().run_script(&job(true, None), &paths(), RunEvent::Located(false));
    assert!(matches!(
        action,
        RunAction::Finished(Err(PsRunnerError::ScriptNotFound(n))) if n == "Install-DriverOnVM.ps1"
    ));
}

#[test]
fn plain_run_starts_directly() {
    let action = runner().run_script(&job(false, None), &paths(), RunEvent::Located(true));
    match action {
        RunAction::Spawn(args) => assert_eq!(
            args,
            spawn_direct("C:\\s\\Install-DriverOnVM.ps1", &strings(&["-VMName", "it's"]))
        ),
        _ => panic!("expected a start"),
    }
}

#[test]
fn run_with_credential_hands_it_to_the_script() {
    let credential = VmCredential { username: "u".into(), password: "p".into() };
    let job = job(false, Some(credential.clone()));
    match runner().run_script(&job, &paths(), RunEvent::Located(true)) {
        RunAction::Spawn(args) => {
            assert_eq!(args, spawn_with_credential(&paths().script, &job.args, &credential))
        }
        _ => panic!("expected a start"),
    }
}

#[test]
fn administrators_run_directly_without_a_credential() {
    let as_admin = RunEvent::AdminProbe(Some(b"True\r\n".to_vec()));
    match runner().run_script(&job(true, None), &paths(), as_admin) {
        RunAction::Spawn(args) => assert_eq!(args[2], "-File"),
        _ => panic!("expected a start"),
    }
}

#[test]
fn elevated_run_asks_for_rights_first() {
    let credential = Some(VmCredential { username: "u".into(), password: "p".into() });
    let job = job(true, credential.clone());
    assert!(matches!(
        runner().run_script(&job, &paths(), RunEvent::Located(true)),
        RunAction::ProbeAdmin
    ));
    let as_admin = RunEvent::AdminProbe(Some(b" True\r\n".to_vec()));
    match runner().run_script(&job, &paths(), as_admin) {
        RunAction::Spawn(args) => assert_eq!(
            args,
            spawn_with_credential(&paths().script, &job.args, credential.as_ref().unwrap())
        ),
        _ => panic!("expected a start"),
    }
    for answer in [None, Some(b"False\r\n".to_vec())] {
        match runner().run_script(&job, &paths(), RunEvent::AdminProbe(answer)) {
            RunAction::Spawn(args) => assert_eq!(
                args,
                spawn_elevated(
                    &paths().script,
                    &job.args,
                    &credential,
                    &paths().stdout_file,
                    &paths().stderr_file,
                )
            ),
            _ => panic!("expected a start"),
        }
    }
}

fn exited(timed_out: bool, code: Option<i32>, stdout: &[u8]) -> RunEvent {
    RunEvent::Exited(ProcessExit {
        timed_out,
        code,
        stdout: stdout.to_vec(),
        stderr: b"err".to_vec(),
        duration: Duration::from_secs(7),
    })
}

#[test]
fn process_exit_gives_the_result() {
    let event = exited(false, Some(3), "caf\u{e9}".as_bytes());
    match runner().run_script(&job(false, None), &paths(), event) {
        RunAction::Finished(Ok(r)) => {
            assert_eq!(r.exit_code, 3);
            assert_eq!(r.stdout, "café");
            assert_eq!(r.stderr, "err");
            assert_eq!(r.duration, Duration::from_secs(7));
        }
        _ => panic!("expected a result"),
    }
}

#[test]
fn invalid_output_is_replaced() {
    match runner().run_script(&job(false, None), &paths(), exited(false, None, b"a\xffb")) {
        RunAction::Finished(Ok(r)) => {
            assert_eq!(r.exit_code, -1);
            assert_eq!(r.stdout, "a\u{FFFD}b");
        }
        _ => panic!("expected a result"),
    }
}

#[test]
fn timeout_wins_over_the_exit_code() {
    let action = runner().run_script(&job(false, None), &paths(), exited(true, Some(0), b""));
    assert!(matches!(
        action,
        RunAction::Finished(Err(PsRunnerError::Timeout(d))) if d == Duration::from_secs(120)
    ));
}

#[test]
fn failed_start_is_an_io_error() {
    let action =
        runner().run_script(&job(false, None), &paths(), RunEvent::Failed("denied".into()));
    assert!(matches!(
        action,
        RunAction::Finished(Err(PsRunnerError::Io(m))) if m == "denied"
    ));
}

#[test]
fn admin_answers() {
    assert!(is_running_as_admin(&Some(b"True\r\n".to_vec())));
    assert!(is_running_as_admin(&Some(b"TRUE".to_vec())));
    assert!(!is_running_as_admin(&Some(b"False\r\n".to_vec())));
    assert!(!is_running_as_admin(&Some(b"".to_vec())));
    assert!(!is_running_as_admin(&None));
    assert!(is_true("\ttrue "));
    assert!(!is_true("tr ue"));
    assert_eq!(admin_probe()[..2], ["-NoProfile", "-Command"]);
    assert!(admin_probe()[2].contains("Administrator"));
}

#[test]
fn watchdog_uses_polling_loop() {
    let timeout = Duration::from_secs(60);
    let step = watchdog_step(&Duration::from_secs(1), &timeout, false);
    assert!(
        matches!(step, WatchdogStep::Sleep(d) if d == Duration::from_millis(100)),
        "watchdog must poll every 100 ms instead of sleeping for the whole timeout"
    );
}

#[test]
fn watchdog_stops_and_kills() {
    let timeout = Duration::from_secs(60);
    assert!(matches!(watchdog_step(&Duration::from_secs(61), &timeout, true), WatchdogStep::Stop));
    assert!(matches!(watchdog_step(&Duration::zero(), &timeout, true), WatchdogStep::Stop));
    assert!(matches!(watchdog_step(&timeout, &timeout, false), WatchdogStep::Kill));
    assert!(matches!(
        watchdog_step(&Duration::new(59, 999_999_999), &timeout, false),
        WatchdogStep::Sleep(_)
    ));
}

// -------------------------------------------------------------------------
// Retries
// -------------------------------------------------------------------------

#[test]
fn backoff_cap_at_30_seconds() {
    assert_eq!(backoff_secs(11), 30, "backoff shift of 10 (1024) should be capped to 30");
    // Also verify small shifts are NOT capped
    assert_eq!(backoff_secs(1), 1, "attempt 1 → 1s backoff");
    assert_eq!(backoff_secs(2), 2, "attempt 2 → 2s backoff");
    assert_eq!(backoff_secs(3), 4, "attempt 3 → 4s backoff");
    assert_eq!(backoff_secs(4), 8, "attempt 4 → 8s backoff");
    assert_eq!(backoff_secs(5), 16, "attempt 5 → 16s backoff");
    assert_eq!(backoff_secs(6), 30, "attempt 6 → capped to 30s");
    assert_eq!(backoff_secs(u32::MAX), 30);
}

#[test]
fn backoff_never_shrinks() {
    for attempt in 1..100 {
        assert!(backoff_secs(attempt) <= backoff_secs(attempt + 1));
    }
}

fn attempted(outcome: Result<ScriptResult, PsRunnerError>) -> RetryEvent {
    RetryEvent::Attempted(outcome)
}

#[test]
fn attempts_are_never_elevated() {
    let credential = Some(VmCredential { username: "u".into(), password: "p".into() });
    let job = ScriptJob { content: Some("text".into()), ..job(true, credential) };
    let attempt = retry_job(&job);
    assert!(!attempt.elevated);
    assert_eq!(attempt.name, job.name);
    assert_eq!(attempt.content.as_deref(), Some("text"));
    assert_eq!(attempt.args, job.args);
    assert_eq!(attempt.timeout, job.timeout);
    assert_eq!(attempt.credential.unwrap().username, "u");

    let mut state = RetryState::new(2);
    let mut event = RetryEvent::Begin;
    let mut waits = Vec::new();
    loop {
        match runner().run_with_retry(&job, &mut state, event) {
            RetryStep::Attempt(backoff, attempt) => {
                assert!(!attempt.elevated);
                assert_eq!(attempt.args, job.args);
                assert!(attempt.credential.is_some());
                waits.push(backoff.as_secs());
                event = attempted(Ok(result(1)));
            }
            RetryStep::Finished(outcome) => {
                assert!(outcome.is_err());
                break;
            }
        }
    }
    assert_eq!(waits, [0, 1, 2]);
}

#[test]
fn first_success_ends_the_retries() {
    let (runner, job) = (runner(), job(false, None));
    let mut state = RetryState::new(3);
    assert!(matches!(
        runner.run_with_retry(&job, &mut state, RetryEvent::Begin),
        RetryStep::Attempt(d, _) if d == Duration::zero()
    ));
    assert!(matches!(
        runner.run_with_retry(&job, &mut state, attempted(Ok(result(1)))),
        RetryStep::Attempt(d, _) if d == Duration::from_secs(1)
    ));
    let timeout = Err(PsRunnerError::Timeout(Duration::from_secs(9)));
    assert!(matches!(
        runner.run_with_retry(&job, &mut state, attempted(timeout)),
        RetryStep::Attempt(d, _) if d == Duration::from_secs(2)
    ));
    assert!(matches!(
        runner.run_with_retry(&job, &mut state, attempted(Ok(result(0)))),
        RetryStep::Finished(Ok(r)) if r.exit_code == 0
    ));
}

#[test]
fn last_attempt_decides() {
    let (runner, job) = (runner(), job(false, None));
    let mut state = RetryState::new(1);
    assert!(matches!(
        runner.run_with_retry(&job, &mut state, attempted(Ok(result(1)))),
        RetryStep::Attempt(_, _)
    ));
    assert!(matches!(
        runner.run_with_retry(&job, &mut state, attempted(Ok(result(7)))),
        RetryStep::Finished(Err(PsRunnerError::ScriptFailed { exit_code: 7, stderr })) if stderr == "boom"
    ));
    let mut none = RetryState::new(0);
    let timeout = Err(PsRunnerError::Timeout(Duration::from_secs(9)));
    assert!(matches!(
        runner.run_with_retry(&job, &mut none, attempted(timeout)),
        RetryStep::Finished(Err(PsRunnerError::Timeout(d))) if d == Duration::from_secs(9)
    ));
}

#[test]
fn other_errors_are_not_retried() {
    let mut state = RetryState::new(5);
    let missing = Err(PsRunnerError::ScriptNotFound("x".into()));
    assert!(matches!(
        runner().run_with_retry(&job(false, None), &mut state, attempted(missing)),
        RetryStep::Finished(Err(PsRunnerError::ScriptNotFound(_)))
    ));
}

#[test]
fn retries_come_to_an_end() {
    let (runner, job) = (runner(), job(false, None));
    let mut state = RetryState::new(4);
    let mut attempts = 0;
    let mut event = RetryEvent::Begin;
    loop {
        match runner.run_with_retry(&job, &mut state, event) {
            RetryStep::Attempt(_, _) => attempts += 1,
            RetryStep::Finished(outcome) => {
                assert!(matches!(outcome, Err(PsRunnerError::ScriptFailed { .. })));
                break;
            }
        }
        event = attempted(Ok(result(1)));
    }
    assert_eq!(attempts, 5);
}
