//! Error types and exit codes for driver smoketest orchestration.

use vstd::prelude::*;

use crate::numbers::{self, signed_to_string, unsigned_to_string};
use crate::text::labelled;

verus! {

/// Process exit code: all tests passed.
pub const EXIT_SUCCESS: i32 = 0;

/// Process exit code: a test-level failure (driver install, verification, etc.).
pub const EXIT_TEST_FAILURE: i32 = 1;

/// Process exit code: an infrastructure / environmental error.
pub const EXIT_INFRA_ERROR: i32 = 2;

/// Errors that can occur during a driver smoketest run.
#[derive(Debug)]
pub enum SmoketestError {
    /// Missing .inf or invalid driver package layout.
    PackageValidation { reason: String },
    /// The requested Hyper-V VM does not exist.
    VmNotFound { name: String },
    /// The VM exists but is not in the Running state.
    VmNotRunning { name: String, state: String },
    /// A PowerShell script returned a non-zero exit code.
    ScriptExecution { script: String, exit_code: i32, stderr: String },
    /// A PowerShell script exceeded its timeout.
    ScriptTimeout { script: String, timeout_secs: u64 },
    /// `pnputil` / `Install-DriverOnVM.ps1` reported a failure.
    ///
    /// Exit codes from the install script:
    /// 1 = no .inf found, 2 = VM not found, 3 = copy failure,
    /// 4 = certificate failure, 5 = install failure, 6 = timeout.
    DriverInstallFailed { install_exit_code: i32, detail: String },
    /// Post-install verification detected a version or provider mismatch.
    DriverVerificationFailed { reason: String },
    /// Hyper-V snapshot create or revert failed.
    SnapshotFailed { reason: String },
    /// ETW / trace capture failed.
    CaptureFailed { reason: String },
    /// An I/O error, as the system describes it.
    Io(String),
}

/// What a [`SmoketestError`] says.
pub enum SmoketestErrorView {
    PackageValidation { reason: Seq<char> },
    VmNotFound { name: Seq<char> },
    VmNotRunning { name: Seq<char>, state: Seq<char> },
    ScriptExecution { script: Seq<char>, exit_code: i32, stderr: Seq<char> },
    ScriptTimeout { script: Seq<char>, timeout_secs: u64 },
    DriverInstallFailed { install_exit_code: i32, detail: Seq<char> },
    DriverVerificationFailed { reason: Seq<char> },
    SnapshotFailed { reason: Seq<char> },
    CaptureFailed { reason: Seq<char> },
    Io(Seq<char>),
}

impl View for SmoketestError {
    type V = SmoketestErrorView;

    open spec fn view(&self) -> SmoketestErrorView {
        match self {
            SmoketestError::PackageValidation { reason } => SmoketestErrorView::PackageValidation {
                reason: reason@,
            },
            SmoketestError::VmNotFound { name } => SmoketestErrorView::VmNotFound { name: name@ },
            SmoketestError::VmNotRunning { name, state } => SmoketestErrorView::VmNotRunning {
                name: name@,
                state: state@,
            },
            SmoketestError::ScriptExecution { script, exit_code, stderr } => {
                SmoketestErrorView::ScriptExecution {
                    script: script@,
                    exit_code: *exit_code,
                    stderr: stderr@,
                }
            },
            SmoketestError::ScriptTimeout { script, timeout_secs } => {
                SmoketestErrorView::ScriptTimeout { script: script@, timeout_secs: *timeout_secs }
            },
            SmoketestError::DriverInstallFailed { install_exit_code, detail } => {
                SmoketestErrorView::DriverInstallFailed {
                    install_exit_code: *install_exit_code,
                    detail: detail@,
                }
            },
            SmoketestError::DriverVerificationFailed { reason } => {
                SmoketestErrorView::DriverVerificationFailed { reason: reason@ }
            },
            SmoketestError::SnapshotFailed { reason } => SmoketestErrorView::SnapshotFailed {
                reason: reason@,
            },
            SmoketestError::CaptureFailed { reason } => SmoketestErrorView::CaptureFailed {
                reason: reason@,
            },
            SmoketestError::Io(message) => SmoketestErrorView::Io(message@),
        }
    }
}

/// The remediation hint for a failed installation, by the install script's exit code.
pub open spec fn install_action(code: i32) -> Seq<char> {
    if code == 1 {
        "ACTION: No .inf file found in the driver package."@
    } else if code == 2 {
        "ACTION: VM not found by the install script; verify the VM name."@
    } else if code == 3 {
        "ACTION: Failed to copy driver files to the VM; check VM connectivity."@
    } else if code == 4 {
        "ACTION: Certificate installation failed; ensure the test-signing cert is available."@
    } else if code == 5 {
        "ACTION: pnputil install failed; check driver signing and INF syntax."@
    } else if code == 6 {
        "ACTION: Install timed out; the VM may be unresponsive."@
    } else {
        "ACTION: Unexpected install exit code; check Install-DriverOnVM.ps1 output."@
    }
}

/// The remediation hint for an error.
pub open spec fn action_of(e: SmoketestErrorView) -> Seq<char> {
    match e {
        SmoketestErrorView::PackageValidation { .. } =>
            "ACTION: Verify your build output contains a valid .inf and .sys in the expected package layout."@,
        SmoketestErrorView::VmNotFound { .. } =>
            "ACTION: Ensure the VM name matches an existing Hyper-V VM (Get-VM)."@,
        SmoketestErrorView::VmNotRunning { .. } =>
            "ACTION: Start the VM before running the smoketest (Start-VM)."@,
        SmoketestErrorView::ScriptExecution { .. } =>
            "ACTION: Check stderr output above. Ensure PowerShell scripts are accessible and the execution policy allows running them."@,
        SmoketestErrorView::ScriptTimeout { .. } =>
            "ACTION: Increase the timeout or investigate why the script is hanging."@,
        SmoketestErrorView::DriverInstallFailed { install_exit_code, .. } => install_action(
            install_exit_code,
        ),
        SmoketestErrorView::DriverVerificationFailed { .. } =>
            "ACTION: The installed driver version or provider does not match the expected values. Rebuild or re-sign the driver."@,
        SmoketestErrorView::SnapshotFailed { .. } =>
            "ACTION: Verify Hyper-V snapshot permissions and available disk space."@,
        SmoketestErrorView::CaptureFailed { .. } =>
            "ACTION: Ensure ETW tracing permissions are available and the trace session is not already in use."@,
        SmoketestErrorView::Io(_) =>
            "ACTION: An I/O error occurred; check file paths and permissions."@,
    }
}

/// Whether an error tells of the driver under test, and not of the environment.
pub open spec fn is_test_failure(e: SmoketestErrorView) -> bool {
    e is PackageValidation || e is DriverInstallFailed || e is DriverVerificationFailed
}

/// The process exit code for an error.
pub open spec fn exit_code_for(e: SmoketestErrorView) -> i32 {
    if is_test_failure(e) {
        EXIT_TEST_FAILURE
    } else {
        EXIT_INFRA_ERROR
    }
}

/// The label of an error in structured reports.
pub open spec fn classification_of(e: SmoketestErrorView) -> Seq<char> {
    match e {
        SmoketestErrorView::PackageValidation { .. } => "PACKAGE_VALIDATION"@,
        SmoketestErrorView::VmNotFound { .. } => "VM_NOT_FOUND"@,
        SmoketestErrorView::VmNotRunning { .. } => "VM_NOT_RUNNING"@,
        SmoketestErrorView::ScriptExecution { .. } => "SCRIPT_EXECUTION"@,
        SmoketestErrorView::ScriptTimeout { .. } => "SCRIPT_TIMEOUT"@,
        SmoketestErrorView::DriverInstallFailed { .. } => "DRIVER_INSTALL_FAILED"@,
        SmoketestErrorView::DriverVerificationFailed { .. } => "DRIVER_VERIFICATION_FAILED"@,
        SmoketestErrorView::SnapshotFailed { .. } => "SNAPSHOT_FAILED"@,
        SmoketestErrorView::CaptureFailed { .. } => "CAPTURE_FAILED"@,
        SmoketestErrorView::Io(_) => "IO_ERROR"@,
    }
}

/// What an error says to a human reader.
pub open spec fn message_of(e: SmoketestErrorView) -> Seq<char> {
    match e {
        SmoketestErrorView::PackageValidation { reason } => "Package validation failed: "@ + reason,
        SmoketestErrorView::VmNotFound { name } => "VM '"@ + name + "' not found"@,
        SmoketestErrorView::VmNotRunning { name, state } => "VM '"@ + name
            + "' is not running (state: "@ + state + ")"@,
        SmoketestErrorView::ScriptExecution { script, exit_code, stderr } => "Script '"@ + script
            + "' failed (exit code "@ + numbers::signed_decimal(exit_code as int) + "): "@
            + stderr,
        SmoketestErrorView::ScriptTimeout { script, timeout_secs } => "Script '"@ + script
            + "' timed out after "@ + numbers::decimal(timeout_secs as nat) + "s"@,
        SmoketestErrorView::DriverInstallFailed { install_exit_code, detail } =>
            "Driver installation failed (install exit code "@ + numbers::signed_decimal(
            install_exit_code as int,
        ) + "): "@ + detail,
        SmoketestErrorView::DriverVerificationFailed { reason } => "Driver verification failed: "@
            + reason,
        SmoketestErrorView::SnapshotFailed { reason } => "Snapshot operation failed: "@ + reason,
        SmoketestErrorView::CaptureFailed { reason } => "Trace capture failed: "@ + reason,
        SmoketestErrorView::Io(message) => message,
    }
}

impl SmoketestError {
    /// A human-readable remediation hint for this error.
    pub fn action(&self) -> (hint: &str)
        ensures
            hint@ == action_of(self@),
    {
        match self {
            SmoketestError::PackageValidation { .. } => {
                "ACTION: Verify your build output contains a valid .inf and .sys in the expected package layout."
            },
            SmoketestError::VmNotFound { .. } => {
                "ACTION: Ensure the VM name matches an existing Hyper-V VM (Get-VM)."
            },
            SmoketestError::VmNotRunning { .. } => {
                "ACTION: Start the VM before running the smoketest (Start-VM)."
            },
            SmoketestError::ScriptExecution { .. } => {
                "ACTION: Check stderr output above. Ensure PowerShell scripts are accessible and the execution policy allows running them."
            },
            SmoketestError::ScriptTimeout { .. } => {
                "ACTION: Increase the timeout or investigate why the script is hanging."
            },
            SmoketestError::DriverInstallFailed { install_exit_code, .. } => {
                match *install_exit_code {
                    1 => "ACTION: No .inf file found in the driver package.",
                    2 => "ACTION: VM not found by the install script; verify the VM name.",
                    3 => "ACTION: Failed to copy driver files to the VM; check VM connectivity.",
                    4 => "ACTION: Certificate installation failed; ensure the test-signing cert is available.",
                    5 => "ACTION: pnputil install failed; check driver signing and INF syntax.",
                    6 => "ACTION: Install timed out; the VM may be unresponsive.",
                    _ => "ACTION: Unexpected install exit code; check Install-DriverOnVM.ps1 output.",
                }
            },
            SmoketestError::DriverVerificationFailed { .. } => {
                "ACTION: The installed driver version or provider does not match the expected values. Rebuild or re-sign the driver."
            },
            SmoketestError::SnapshotFailed { .. } => {
                "ACTION: Verify Hyper-V snapshot permissions and available disk space."
            },
            SmoketestError::CaptureFailed { .. } => {
                "ACTION: Ensure ETW tracing permissions are available and the trace session is not already in use."
            },
            SmoketestError::Io(_) => {
                "ACTION: An I/O error occurred; check file paths and permissions."
            },
        }
    }

    /// The process exit code for this error.
    pub fn exit_code(&self) -> (code: i32)
        ensures
            code == (if is_test_failure(self@) {
                EXIT_TEST_FAILURE
            } else {
                EXIT_INFRA_ERROR
            }),
            code == exit_code_for(self@),
    {
        match self {
            SmoketestError::PackageValidation { .. }
            | SmoketestError::DriverInstallFailed { .. }
            | SmoketestError::DriverVerificationFailed { .. } => EXIT_TEST_FAILURE,
            SmoketestError::VmNotFound { .. }
            | SmoketestError::VmNotRunning { .. }
            | SmoketestError::ScriptExecution { .. }
            | SmoketestError::ScriptTimeout { .. }
            | SmoketestError::SnapshotFailed { .. }
            | SmoketestError::CaptureFailed { .. }
            | SmoketestError::Io(_) => EXIT_INFRA_ERROR,
        }
    }

    /// A short classification label for structured reporting.
    pub fn classification(&self) -> (label: &str)
        ensures
            label@ == classification_of(self@),
    {
        match self {
            SmoketestError::PackageValidation { .. } => "PACKAGE_VALIDATION",
            SmoketestError::VmNotFound { .. } => "VM_NOT_FOUND",
            SmoketestError::VmNotRunning { .. } => "VM_NOT_RUNNING",
            SmoketestError::ScriptExecution { .. } => "SCRIPT_EXECUTION",
            SmoketestError::ScriptTimeout { .. } => "SCRIPT_TIMEOUT",
            SmoketestError::DriverInstallFailed { .. } => "DRIVER_INSTALL_FAILED",
            SmoketestError::DriverVerificationFailed { .. } => "DRIVER_VERIFICATION_FAILED",
            SmoketestError::SnapshotFailed { .. } => "SNAPSHOT_FAILED",
            SmoketestError::CaptureFailed { .. } => "CAPTURE_FAILED",
            SmoketestError::Io(_) => "IO_ERROR",
        }
    }

    /// What the error says to a human reader.
    pub fn message(&self) -> (text: String)
        ensures
            text@ == message_of(self@),
    {
        match self {
            SmoketestError::PackageValidation { reason } => {
                labelled("Package validation failed: ", reason)
            },
            SmoketestError::VmNotFound { name } => {
                let mut text = labelled("VM '", name);
                text.append("' not found");
                text
            },
            SmoketestError::VmNotRunning { name, state } => {
                let mut text = labelled("VM '", name);
                text.append("' is not running (state: ");
                text.append(state.as_str());
                text.append(")");
                text
            },
            SmoketestError::ScriptExecution { script, exit_code, stderr } => {
                let mut text = labelled("Script '", script);
                text.append("' failed (exit code ");
                text.append(signed_to_string(*exit_code).as_str());
                text.append("): ");
                text.append(stderr.as_str());
                text
            },
            SmoketestError::ScriptTimeout { script, timeout_secs } => {
                let mut text = labelled("Script '", script);
                text.append("' timed out after ");
                text.append(unsigned_to_string(*timeout_secs).as_str());
                text.append("s");
                text
            },
            SmoketestError::DriverInstallFailed { install_exit_code, detail } => {
                let mut text = labelled(
                    "Driver installation failed (install exit code ",
                    &signed_to_string(*install_exit_code),
                );
                text.append("): ");
                text.append(detail.as_str());
                text
            },
            SmoketestError::DriverVerificationFailed { reason } => {
                labelled("Driver verification failed: ", reason)
            },
            SmoketestError::SnapshotFailed { reason } => {
                labelled("Snapshot operation failed: ", reason)
            },
            SmoketestError::CaptureFailed { reason } => labelled("Trace capture failed: ", reason),
            SmoketestError::Io(message) => message.clone(),
        }
    }
}

// ---------------------------------------------------------------------------
// Laws
// ---------------------------------------------------------------------------

/// Every error comes with a hint that starts with `ACTION:`.
pub proof fn law_action_starts_with_marker(e: SmoketestErrorView)
    ensures
        "ACTION:"@.is_prefix_of(action_of(e)),
        action_of(e).len() > 7,
{
    reveal_strlit("ACTION:");
    reveal_strlit(
        "ACTION: Verify your build output contains a valid .inf and .sys in the expected package layout.",
    );
    reveal_strlit("ACTION: Ensure the VM name matches an existing Hyper-V VM (Get-VM).");
    reveal_strlit("ACTION: Start the VM before running the smoketest (Start-VM).");
    reveal_strlit(
        "ACTION: Check stderr output above. Ensure PowerShell scripts are accessible and the execution policy allows running them.",
    );
    reveal_strlit("ACTION: Increase the timeout or investigate why the script is hanging.");
    reveal_strlit("ACTION: No .inf file found in the driver package.");
    reveal_strlit("ACTION: VM not found by the install script; verify the VM name.");
    reveal_strlit("ACTION: Failed to copy driver files to the VM; check VM connectivity.");
    reveal_strlit(
        "ACTION: Certificate installation failed; ensure the test-signing cert is available.",
    );
    reveal_strlit("ACTION: pnputil install failed; check driver signing and INF syntax.");
    reveal_strlit("ACTION: Install timed out; the VM may be unresponsive.");
    reveal_strlit("ACTION: Unexpected install exit code; check Install-DriverOnVM.ps1 output.");
    reveal_strlit(
        "ACTION: The installed driver version or provider does not match the expected values. Rebuild or re-sign the driver.",
    );
    reveal_strlit("ACTION: Verify Hyper-V snapshot permissions and available disk space.");
    reveal_strlit(
        "ACTION: Ensure ETW tracing permissions are available and the trace session is not already in use.",
    );
    reveal_strlit("ACTION: An I/O error occurred; check file paths and permissions.");
}

/// Whether `c` may stand in a classification label.
pub open spec fn is_label_char(c: char) -> bool {
    'A' <= c <= 'Z' || c == '_'
}

/// Whether two errors are of one kind, whatever they tell besides.
pub open spec fn same_kind(a: SmoketestErrorView, b: SmoketestErrorView) -> bool {
    &&& a is PackageValidation == b is PackageValidation
    &&& a is VmNotFound == b is VmNotFound
    &&& a is VmNotRunning == b is VmNotRunning
    &&& a is ScriptExecution == b is ScriptExecution
    &&& a is ScriptTimeout == b is ScriptTimeout
    &&& a is DriverInstallFailed == b is DriverInstallFailed
    &&& a is DriverVerificationFailed == b is DriverVerificationFailed
    &&& a is SnapshotFailed == b is SnapshotFailed
    &&& a is CaptureFailed == b is CaptureFailed
    &&& a is Io == b is Io
}

/// A classification label is a non-empty word of capital letters and underscores.
pub proof fn law_classification_is_upper_snake_case(e: SmoketestErrorView)
    ensures
        classification_of(e).len() > 0,
        forall|i: int|
            0 <= i < classification_of(e).len() ==> is_label_char(#[trigger] classification_of(e)[i]),
{
    reveal_strlit("PACKAGE_VALIDATION");
    reveal_strlit("VM_NOT_FOUND");
    reveal_strlit("VM_NOT_RUNNING");
    reveal_strlit("SCRIPT_EXECUTION");
    reveal_strlit("SCRIPT_TIMEOUT");
    reveal_strlit("DRIVER_INSTALL_FAILED");
    reveal_strlit("DRIVER_VERIFICATION_FAILED");
    reveal_strlit("SNAPSHOT_FAILED");
    reveal_strlit("CAPTURE_FAILED");
    reveal_strlit("IO_ERROR");
}

/// Two errors have the same label exactly when they are of one kind.
pub proof fn law_classification_tells_kinds_apart(a: SmoketestErrorView, b: SmoketestErrorView)
    ensures
        classification_of(a) == classification_of(b) <==> same_kind(a, b),
{
    reveal_strlit("PACKAGE_VALIDATION");
    reveal_strlit("VM_NOT_FOUND");
    reveal_strlit("VM_NOT_RUNNING");
    reveal_strlit("SCRIPT_EXECUTION");
    reveal_strlit("SCRIPT_TIMEOUT");
    reveal_strlit("DRIVER_INSTALL_FAILED");
    reveal_strlit("DRIVER_VERIFICATION_FAILED");
    reveal_strlit("SNAPSHOT_FAILED");
    reveal_strlit("CAPTURE_FAILED");
    reveal_strlit("IO_ERROR");
    if classification_of(a) == classification_of(b) {
        assert(classification_of(a).len() == classification_of(b).len());
        assert(classification_of(a)[0] == classification_of(b)[0]);
    }
}

/// What went wrong with the package, the installation or the verification tells of the driver;
/// everything else tells of the environment.
pub proof fn law_test_failures_tell_of_the_driver(e: SmoketestErrorView)
    ensures
        e is PackageValidation || e is DriverInstallFailed || e is DriverVerificationFailed
            ==> is_test_failure(e),
        e is VmNotFound || e is VmNotRunning || e is ScriptExecution || e is ScriptTimeout
            || e is SnapshotFailed || e is CaptureFailed || e is Io ==> !is_test_failure(e),
{
}

/// An error that tells of the driver ends the program with exit code 1, any other with 2, and
/// none with 0.
pub proof fn law_errors_have_their_exit_codes(e: SmoketestErrorView)
    ensures
        exit_code_for(e) == 1 <==> e is PackageValidation || e is DriverInstallFailed
            || e is DriverVerificationFailed,
        exit_code_for(e) == 2 <==> !(e is PackageValidation || e is DriverInstallFailed
            || e is DriverVerificationFailed),
{
}

/// The process exit codes.
pub proof fn law_exit_codes()
    ensures
        EXIT_SUCCESS == 0,
        EXIT_TEST_FAILURE == 1,
        EXIT_INFRA_ERROR == 2,
{
}

/// Each kind of error has its own label.
pub proof fn law_classification_names_the_kind(e: SmoketestErrorView)
    ensures
        e is PackageValidation ==> classification_of(e) == "PACKAGE_VALIDATION"@,
        e is VmNotFound ==> classification_of(e) == "VM_NOT_FOUND"@,
        e is VmNotRunning ==> classification_of(e) == "VM_NOT_RUNNING"@,
        e is ScriptExecution ==> classification_of(e) == "SCRIPT_EXECUTION"@,
        e is ScriptTimeout ==> classification_of(e) == "SCRIPT_TIMEOUT"@,
        e is DriverInstallFailed ==> classification_of(e) == "DRIVER_INSTALL_FAILED"@,
        e is DriverVerificationFailed ==> classification_of(e) == "DRIVER_VERIFICATION_FAILED"@,
        e is SnapshotFailed ==> classification_of(e) == "SNAPSHOT_FAILED"@,
        e is CaptureFailed ==> classification_of(e) == "CAPTURE_FAILED"@,
        e is Io ==> classification_of(e) == "IO_ERROR"@,
{
}

/// What an error says holds everything that it is about.
pub proof fn law_messages_tell_the_cause(a: Seq<char>, b: Seq<char>, code: i32, secs: u64)
    ensures
        message_of(SmoketestErrorView::PackageValidation { reason: a })
            == "Package validation failed: "@ + a,
        message_of(SmoketestErrorView::VmNotFound { name: a }) == "VM '"@ + a + "' not found"@,
        message_of(SmoketestErrorView::VmNotRunning { name: a, state: b }) == "VM '"@ + a
            + "' is not running (state: "@ + b + ")"@,
        message_of(
            SmoketestErrorView::ScriptExecution { script: a, exit_code: code, stderr: b },
        ) == "Script '"@ + a + "' failed (exit code "@ + numbers::signed_decimal(code as int)
            + "): "@ + b,
        message_of(SmoketestErrorView::ScriptTimeout { script: a, timeout_secs: secs })
            == "Script '"@ + a + "' timed out after "@ + numbers::decimal(secs as nat) + "s"@,
        message_of(SmoketestErrorView::DriverInstallFailed { install_exit_code: code, detail: a })
            == "Driver installation failed (install exit code "@ + numbers::signed_decimal(
            code as int,
        ) + "): "@ + a,
        message_of(SmoketestErrorView::DriverVerificationFailed { reason: a })
            == "Driver verification failed: "@ + a,
        message_of(SmoketestErrorView::SnapshotFailed { reason: a })
            == "Snapshot operation failed: "@ + a,
        message_of(SmoketestErrorView::CaptureFailed { reason: a }) == "Trace capture failed: "@
            + a,
        message_of(SmoketestErrorView::Io(a)) == a,
{
}

/// Each exit code of the install script that has a meaning has its own hint, and all others
/// share one. The hint goes by the exit code alone.
pub proof fn law_install_hints_follow_the_exit_code(code: i32, detail: Seq<char>)
    ensures
        ({
            let hint = action_of(
                SmoketestErrorView::DriverInstallFailed { install_exit_code: code, detail },
            );
            &&& code == 1 ==> hint == "ACTION: No .inf file found in the driver package."@
            &&& code == 2 ==> hint
                == "ACTION: VM not found by the install script; verify the VM name."@
            &&& code == 3 ==> hint
                == "ACTION: Failed to copy driver files to the VM; check VM connectivity."@
            &&& code == 4 ==> hint
                == "ACTION: Certificate installation failed; ensure the test-signing cert is available."@
            &&& code == 5 ==> hint
                == "ACTION: pnputil install failed; check driver signing and INF syntax."@
            &&& code == 6 ==> hint == "ACTION: Install timed out; the VM may be unresponsive."@
            &&& code < 1 || code > 6 ==> hint
                == "ACTION: Unexpected install exit code; check Install-DriverOnVM.ps1 output."@
        }),
{
}

/// Each other kind of error has its own hint.
pub proof fn law_hints_follow_the_kind(e: SmoketestErrorView)
    ensures
        e is PackageValidation ==> action_of(e)
            == "ACTION: Verify your build output contains a valid .inf and .sys in the expected package layout."@,
        e is VmNotFound ==> action_of(e)
            == "ACTION: Ensure the VM name matches an existing Hyper-V VM (Get-VM)."@,
        e is VmNotRunning ==> action_of(e)
            == "ACTION: Start the VM before running the smoketest (Start-VM)."@,
        e is ScriptExecution ==> action_of(e)
            == "ACTION: Check stderr output above. Ensure PowerShell scripts are accessible and the execution policy allows running them."@,
        e is ScriptTimeout ==> action_of(e)
            == "ACTION: Increase the timeout or investigate why the script is hanging."@,
        e is DriverVerificationFailed ==> action_of(e)
            == "ACTION: The installed driver version or provider does not match the expected values. Rebuild or re-sign the driver."@,
        e is SnapshotFailed ==> action_of(e)
            == "ACTION: Verify Hyper-V snapshot permissions and available disk space."@,
        e is CaptureFailed ==> action_of(e)
            == "ACTION: Ensure ETW tracing permissions are available and the trace session is not already in use."@,
        e is Io ==> action_of(e)
            == "ACTION: An I/O error occurred; check file paths and permissions."@,
{
}

} // verus!
