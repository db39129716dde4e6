//! What the command line asks for.

use vstd::prelude::*;

use crate::error::{self, SmoketestError};
use crate::pipeline::{ConfigView, PipelineConfig};
use crate::ps_runner::{CredentialView, VmCredential};
use crate::text::{self, labelled};

verus! {

/// Default VM name when none is supplied.
pub const DEFAULT_VM_NAME: &'static str = "driver-test-vm";

/// The user of the test VM.
pub const TEST_USER: &'static str = "DriverTestAdmin";

/// The password of that user.
pub const TEST_PASSWORD: &'static str = "1234";

/// What the command line says about a run.
pub struct CommandLine {
    /// Path to the driver package directory.
    pub driver_package: String,
    /// Hyper-V VM name to target.
    pub vm_name: Option<String>,
    /// Skip the driver verification step.
    pub skip_verify: bool,
    /// Skip the trace capture step.
    pub skip_capture: bool,
    /// Duration in seconds for ETW trace capture.
    pub capture_duration: u32,
    /// Do not clean up temporary resources on completion.
    pub no_cleanup: bool,
    /// Host directory where captured log files will be placed.
    pub output_dir: Option<String>,
}

/// `o`, or `default` where there is none.
pub open spec fn or_default(o: Option<Seq<char>>, default: Seq<char>) -> Seq<char> {
    match o {
        Some(s) => s,
        None => default,
    }
}

/// The configuration of the run that `line` asks for.
pub open spec fn configuration_of(line: CommandLine, default_output_dir: Seq<char>) -> ConfigView {
    ConfigView {
        driver_package: line.driver_package@,
        vm_name: or_default(text::opt_text(line.vm_name), DEFAULT_VM_NAME@),
        credential: Some(CredentialView { username: TEST_USER@, password: TEST_PASSWORD@ }),
        skip_verify: line.skip_verify,
        skip_capture: line.skip_capture,
        capture_duration: line.capture_duration,
        no_cleanup: line.no_cleanup,
        output_dir: or_default(text::opt_text(line.output_dir), default_output_dir),
    }
}

impl CommandLine {
    /// The configuration of the run: the default VM and the default output directory where
    /// none is named, and the credential of the test VM.
    pub fn configuration(self, default_output_dir: String) -> (config: PipelineConfig)
        ensures
            config@ == configuration_of(self, default_output_dir@),
    {
        PipelineConfig {
            driver_package: self.driver_package,
            vm_name: match self.vm_name {
                Some(name) => name,
                None => DEFAULT_VM_NAME.to_owned(),
            },
            credential: Some(
                VmCredential { username: TEST_USER.to_owned(), password: TEST_PASSWORD.to_owned() },
            ),
            skip_verify: self.skip_verify,
            skip_capture: self.skip_capture,
            capture_duration: self.capture_duration,
            no_cleanup: self.no_cleanup,
            output_dir: match self.output_dir {
                Some(dir) => dir,
                None => default_output_dir,
            },
        }
    }
}

/// The level of the log for a verbosity.
pub open spec fn level_of(verbose: nat) -> Seq<char> {
    if verbose == 0 {
        "warn"@
    } else if verbose == 1 {
        "info"@
    } else if verbose == 2 {
        "debug"@
    } else {
        "trace"@
    }
}

/// The level of the log for a verbosity (0=warn, 1=info, 2=debug, 3+=trace).
pub fn verbosity_filter(verbose: u8) -> (level: &'static str)
    ensures
        level@ == (if verbose == 0 {
            "warn"@
        } else if verbose == 1 {
            "info"@
        } else if verbose == 2 {
            "debug"@
        } else {
            "trace"@
        }),
        level@ == level_of(verbose as nat),
{
    match verbose {
        0 => "warn",
        1 => "info",
        2 => "debug",
        _ => "trace",
    }
}

/// What is told of an error that ends the program.
pub open spec fn error_text(e: error::SmoketestErrorView) -> Seq<char> {
    "error: "@ + error::message_of(e) + "\n"@ + error::action_of(e) + "\n"@
}

/// What is told of an error that ends the program: what went wrong, and what to do.
pub fn error_report(e: &SmoketestError) -> (text: String)
    ensures
        text@ == "error: "@ + error::message_of(e@) + "\n"@ + error::action_of(e@) + "\n"@,
        text@ == error_text(e@),
{
    let mut text = labelled("error: ", &e.message());
    text.append("\n");
    text.append(e.action());
    text.append("\n");
    text
}

/// What the command line says is what the run is configured with; a VM or an output directory
/// that it does not name is the default one, and the credential is that of the test VM.
pub proof fn law_command_line_is_obeyed(line: CommandLine, default_output_dir: Seq<char>)
    ensures
        ({
            let c = configuration_of(line, default_output_dir);
            &&& c.driver_package == line.driver_package@
            &&& line.vm_name matches Some(name) ==> c.vm_name == name@
            &&& line.vm_name is None ==> c.vm_name == "driver-test-vm"@
            &&& line.output_dir matches Some(dir) ==> c.output_dir == dir@
            &&& line.output_dir is None ==> c.output_dir == default_output_dir
            &&& c.skip_verify == line.skip_verify
            &&& c.skip_capture == line.skip_capture
            &&& c.capture_duration == line.capture_duration
            &&& c.no_cleanup == line.no_cleanup
            &&& c.credential matches Some(credential) && credential.username
                == "DriverTestAdmin"@ && credential.password == "1234"@
        }),
{
}

/// Each request for more output gives one level more, up to the last.
pub proof fn law_verbosity_raises_the_level(verbose: nat)
    ensures
        level_of(0) == "warn"@,
        level_of(1) == "info"@,
        level_of(2) == "debug"@,
        verbose >= 3 ==> level_of(verbose) == "trace"@,
{
}

/// An error is told in two lines: what it says, and what to do.
pub proof fn law_error_is_told_with_its_hint(e: error::SmoketestErrorView)
    ensures
        error_text(e) == "error: "@ + error::message_of(e) + "\n"@ + error::action_of(e) + "\n"@,
{
}

} // verus!
