use driver_test_cli_v2::cli::error_report;
use driver_test_cli_v2::error::{
    SmoketestError, EXIT_INFRA_ERROR, EXIT_SUCCESS, EXIT_TEST_FAILURE,
};

// -- exit_code correctness ------------------------------------------------

#[test]
fn package_validation_exit_code_is_test_failure() {
    let err = SmoketestError::PackageValidation {
        reason: "missing .inf".into(),
    };
    assert_eq!(err.exit_code(), EXIT_TEST_FAILURE);
}

#[test]
fn driver_install_failed_exit_code_is_test_failure() {
    let err = SmoketestError::DriverInstallFailed {
        install_exit_code: 5,
        detail: "pnputil failed".into(),
    };
    assert_eq!(err.exit_code(), EXIT_TEST_FAILURE);
}

#[test]
fn driver_verification_failed_exit_code_is_test_failure() {
    let err = SmoketestError::DriverVerificationFailed {
        reason: "version mismatch".into(),
    };
    assert_eq!(err.exit_code(), EXIT_TEST_FAILURE);
}

#[test]
fn vm_not_found_exit_code_is_infra_error() {
    let err = SmoketestError::VmNotFound {
        name: "ghost-vm".into(),
    };
    assert_eq!(err.exit_code(), EXIT_INFRA_ERROR);
}

#[test]
fn vm_not_running_exit_code_is_infra_error() {
    let err = SmoketestError::VmNotRunning {
        name: "vm1".into(),
        state: "Off".into(),
    };
    assert_eq!(err.exit_code(), EXIT_INFRA_ERROR);
}

#[test]
fn script_execution_exit_code_is_infra_error() {
    let err = SmoketestError::ScriptExecution {
        script: "test.ps1".into(),
        exit_code: 1,
        stderr: "boom".into(),
    };
    assert_eq!(err.exit_code(), EXIT_INFRA_ERROR);
}

#[test]
fn script_timeout_exit_code_is_infra_error() {
    let err = SmoketestError::ScriptTimeout {
        script: "slow.ps1".into(),
        timeout_secs: 120,
    };
    assert_eq!(err.exit_code(), EXIT_INFRA_ERROR);
}

#[test]
fn snapshot_failed_exit_code_is_infra_error() {
    let err = SmoketestError::SnapshotFailed {
        reason: "disk full".into(),
    };
    assert_eq!(err.exit_code(), EXIT_INFRA_ERROR);
}

#[test]
fn capture_failed_exit_code_is_infra_error() {
    let err = SmoketestError::CaptureFailed {
        reason: "session busy".into(),
    };
    assert_eq!(err.exit_code(), EXIT_INFRA_ERROR);
}

#[test]
fn io_error_exit_code_is_infra_error() {
    let err = SmoketestError::Io(
        std::io::Error::new(std::io::ErrorKind::NotFound, "file gone").to_string(),
    );
    assert_eq!(err.exit_code(), EXIT_INFRA_ERROR);
}

// -- exit code constants --------------------------------------------------

#[test]
fn exit_code_constants_are_distinct() {
    assert_eq!(EXIT_SUCCESS, 0);
    assert_eq!(EXIT_TEST_FAILURE, 1);
    assert_eq!(EXIT_INFRA_ERROR, 2);
    assert_ne!(EXIT_SUCCESS, EXIT_TEST_FAILURE);
    assert_ne!(EXIT_TEST_FAILURE, EXIT_INFRA_ERROR);
}

// -- action() non-empty for every variant ---------------------------------

fn all_error_variants() -> Vec<SmoketestError> {
    let mut all = vec![
        SmoketestError::PackageValidation {
            reason: "test".into(),
        },
        SmoketestError::VmNotFound {
            name: "vm".into(),
        },
        SmoketestError::VmNotRunning {
            name: "vm".into(),
            state: "Off".into(),
        },
        SmoketestError::ScriptExecution {
            script: "s.ps1".into(),
            exit_code: 1,
            stderr: "err".into(),
        },
        SmoketestError::ScriptTimeout {
            script: "s.ps1".into(),
            timeout_secs: 30,
        },
        SmoketestError::DriverVerificationFailed {
            reason: "mismatch".into(),
        },
        SmoketestError::SnapshotFailed {
            reason: "disk".into(),
        },
        SmoketestError::CaptureFailed {
            reason: "busy".into(),
        },
        SmoketestError::Io("io".into()),
    ];
    for install_exit_code in [1, 2, 3, 4, 5, 6, 99] {
        all.push(SmoketestError::DriverInstallFailed {
            install_exit_code,
            detail: "d".into(),
        });
    }
    all
}

#[test]
fn action_is_nonempty_for_all_variants() {
    for err in all_error_variants() {
        let action = err.action();
        assert!(
            !action.is_empty(),
            "action() was empty for: {err:?}"
        );
        assert!(
            action.starts_with("ACTION:"),
            "action() should start with 'ACTION:' for: {err:?}"
        );
    }
}

// -- messages are human-readable ------------------------------------------

#[test]
fn display_messages_are_human_readable() {
    let err = SmoketestError::PackageValidation {
        reason: "no .inf found".into(),
    };
    let msg = err.message();
    assert!(msg.contains("Package validation failed"));
    assert!(msg.contains("no .inf found"));
}

#[test]
fn display_vm_not_found_includes_name() {
    let err = SmoketestError::VmNotFound {
        name: "my-vm".into(),
    };
    assert!(err.message().contains("my-vm"));
}

#[test]
fn display_script_execution_includes_details() {
    let err = SmoketestError::ScriptExecution {
        script: "Install.ps1".into(),
        exit_code: 42,
        stderr: "access denied".into(),
    };
    let msg = err.message();
    assert!(msg.contains("Install.ps1"));
    assert!(msg.contains("42"));
    assert!(msg.contains("access denied"));
}

#[test]
fn display_script_timeout_includes_seconds() {
    let err = SmoketestError::ScriptTimeout {
        script: "Slow.ps1".into(),
        timeout_secs: 300,
    };
    let msg = err.message();
    assert!(msg.contains("Slow.ps1"));
    assert!(msg.contains("300"));
}

#[test]
fn whole_messages() {
    let messages: Vec<String> = all_error_variants().iter().map(|e| e.message()).collect();
    assert_eq!(
        messages[..10],
        [
            "Package validation failed: test",
            "VM 'vm' not found",
            "VM 'vm' is not running (state: Off)",
            "Script 's.ps1' failed (exit code 1): err",
            "Script 's.ps1' timed out after 30s",
            "Driver verification failed: mismatch",
            "Snapshot operation failed: disk",
            "Trace capture failed: busy",
            "io",
            "Driver installation failed (install exit code 1): d",
        ]
    );
    let negative = SmoketestError::ScriptExecution {
        script: "s".into(),
        exit_code: i32::MIN,
        stderr: String::new(),
    };
    assert_eq!(negative.message(), "Script 's' failed (exit code -2147483648): ");
    let long = SmoketestError::ScriptTimeout {
        script: "s".into(),
        timeout_secs: u64::MAX,
    };
    assert_eq!(long.message(), "Script 's' timed out after 18446744073709551615s");
}

// -- classification() labels ----------------------------------------------

#[test]
fn classification_labels_are_uppercase_snake_case() {
    for err in all_error_variants() {
        let label = err.classification();
        assert!(!label.is_empty(), "classification empty for {err:?}");
        assert!(
            label.chars().all(|c| c.is_ascii_uppercase() || c == '_'),
            "classification '{label}' should be UPPER_SNAKE_CASE"
        );
    }
}

#[test]
fn classification_known_values() {
    assert_eq!(
        SmoketestError::PackageValidation { reason: "x".into() }.classification(),
        "PACKAGE_VALIDATION"
    );
    assert_eq!(
        SmoketestError::VmNotFound { name: "v".into() }.classification(),
        "VM_NOT_FOUND"
    );
    assert_eq!(
        SmoketestError::Io(String::new()).classification(),
        "IO_ERROR"
    );
}

#[test]
fn classification_tells_kinds_apart() {
    let all = all_error_variants();
    let labels: std::collections::HashSet<&str> = all.iter().map(|e| e.classification()).collect();
    assert_eq!(labels.len(), 10);
    assert_eq!(all[9].classification(), all[15].classification());
}

// -- DriverInstallFailed action per sub-exit-code -------------------------

#[test]
fn driver_install_action_varies_by_install_exit_code() {
    let errors: Vec<SmoketestError> = (1..=7)
        .map(|code| SmoketestError::DriverInstallFailed {
            install_exit_code: code,
            detail: "d".into(),
        })
        .collect();

    let actions: Vec<&str> = errors.iter().map(|e| e.action()).collect();

    // Codes 1–6 each have a specific message; 7 hits the fallback.
    // Ensure they are not all the same.
    let unique: std::collections::HashSet<&&str> = actions.iter().collect();
    assert!(
        unique.len() > 1,
        "expected distinct action messages per exit code"
    );
    assert_eq!(unique.len(), 7);
}

#[test]
fn package_validation_error_has_action_guidance() {
    let err = SmoketestError::PackageValidation {
        reason: "test".into(),
    };
    let action = err.action();
    assert!(action.contains("ACTION"));
    assert!(action.contains(".inf"));
}

#[test]
fn error_report_tells_what_went_wrong_and_what_to_do() {
    let err = SmoketestError::VmNotFound { name: "v".into() };
    assert_eq!(
        error_report(&err),
        "error: VM 'v' not found\nACTION: Ensure the VM name matches an existing Hyper-V VM (Get-VM).\n"
    );
}
