//! PowerShell script runner for driver test orchestration: what a script is run with,
//! what its run gives, and when a run is tried again.
//!
//! Scripts are embedded or, where the embedded text is empty, loaded from a `scripts/`
//! directory.

use vstd::prelude::*;

use crate::command::{self, spawn_direct, spawn_elevated, spawn_with_credential};
use crate::details::{self, Details, Pairs};
use crate::duration::{self, Duration};
use crate::encoding;
use crate::numbers::{self, signed_to_string, unsigned_to_string};
use crate::text::{
    self, chars_of, copy_opt, copy_strings, eq_ignore_ascii_case, labelled, quoted, trim,
};

verus! {

// ---------------------------------------------------------------------------
// Errors
// ---------------------------------------------------------------------------

/// Why a script gave no result.
#[derive(Debug)]
pub enum PsRunnerError {
    /// An I/O error, as the system describes it.
    Io(String),
    /// No file of this name is among the scripts.
    ScriptNotFound(String),
    /// The script ran longer than this.
    Timeout(Duration),
    /// The script exited with a code other than zero.
    ScriptFailed { exit_code: i32, stderr: String },
    /// No attempt gave a result.
    RetriesExhausted(u32),
    /// The script of this name has no content.
    EmptyScript(String),
}

/// What a [`PsRunnerError`] says.
pub enum PsRunnerErrorView {
    Io(Seq<char>),
    ScriptNotFound(Seq<char>),
    Timeout(nat),
    ScriptFailed { exit_code: i32, stderr: Seq<char> },
    RetriesExhausted(u32),
    EmptyScript(Seq<char>),
}

impl View for PsRunnerError {
    type V = PsRunnerErrorView;

    open spec fn view(&self) -> PsRunnerErrorView {
        match self {
            PsRunnerError::Io(message) => PsRunnerErrorView::Io(message@),
            PsRunnerError::ScriptNotFound(name) => PsRunnerErrorView::ScriptNotFound(name@),
            PsRunnerError::Timeout(after) => PsRunnerErrorView::Timeout(after@),
            PsRunnerError::ScriptFailed { exit_code, stderr } => PsRunnerErrorView::ScriptFailed {
                exit_code: *exit_code,
                stderr: stderr@,
            },
            PsRunnerError::RetriesExhausted(retries) => PsRunnerErrorView::RetriesExhausted(
                *retries,
            ),
            PsRunnerError::EmptyScript(name) => PsRunnerErrorView::EmptyScript(name@),
        }
    }
}

/// What an error says to a human reader.
pub open spec fn message_of(e: PsRunnerErrorView) -> Seq<char> {
    match e {
        PsRunnerErrorView::Io(message) => "I/O error: "@ + message,
        PsRunnerErrorView::ScriptNotFound(name) => "script not found: "@ + name,
        PsRunnerErrorView::Timeout(after) => "script timed out after "@ + duration::debug_of(after),
        PsRunnerErrorView::ScriptFailed { exit_code, stderr } => "script failed with exit code "@
            + numbers::signed_decimal(exit_code as int) + ": "@ + stderr,
        PsRunnerErrorView::RetriesExhausted(retries) => "all "@ + numbers::decimal(retries as nat)
            + " retries exhausted"@,
        PsRunnerErrorView::EmptyScript(name) => "script '"@ + name
            + "' has no content — ensure scripts are properly bundled or available in the scripts/ directory"@,
    }
}

impl PsRunnerError {
    /// What the error says to a human reader.
    pub fn message(&self) -> (text: String)
        ensures
            text@ == message_of(self@),
    {
        match self {
            PsRunnerError::Io(message) => labelled("I/O error: ", message),
            PsRunnerError::ScriptNotFound(name) => labelled("script not found: ", name),
            PsRunnerError::Timeout(after) => labelled(
                "script timed out after ",
                &after.debug_text(),
            ),
            PsRunnerError::ScriptFailed { exit_code, stderr } => {
                let mut text = labelled(
                    "script failed with exit code ",
                    &signed_to_string(*exit_code),
                );
                text.append(": ");
                text.append(stderr.as_str());
                text
            },
            PsRunnerError::RetriesExhausted(retries) => {
                let mut text = labelled("all ", &unsigned_to_string(*retries as u64));
                text.append(" retries exhausted");
                text
            },
            PsRunnerError::EmptyScript(name) => {
                let mut text = labelled("script '", name);
                text.append(
                    "' has no content — ensure scripts are properly bundled or available in the scripts/ directory",
                );
                text
            },
        }
    }
}

// ---------------------------------------------------------------------------
// Credentials
// ---------------------------------------------------------------------------

/// Optional username + password for PS Direct VM connections.
pub struct VmCredential {
    pub username: String,
    pub password: String,
}

/// What a [`VmCredential`] holds.
pub struct CredentialView {
    pub username: Seq<char>,
    pub password: Seq<char>,
}

impl View for VmCredential {
    type V = CredentialView;

    open spec fn view(&self) -> CredentialView {
        CredentialView { username: self.username@, password: self.password@ }
    }
}

/// What an optional credential holds.
pub open spec fn opt_credential(c: Option<VmCredential>) -> Option<CredentialView> {
    match c {
        Some(c) => Some(c@),
        None => None,
    }
}

impl Clone for VmCredential {
    fn clone(&self) -> (c: VmCredential)
        ensures
            c@ == self@,
    {
        VmCredential { username: self.username.clone(), password: self.password.clone() }
    }
}

/// A credential as logs show it: without the password.
pub open spec fn redacted(c: CredentialView) -> Seq<char> {
    "VmCredential { username: "@ + text::debug_quoted(c.username)
        + ", password: \"[REDACTED]\" }"@
}

impl VmCredential {
    /// The credential as logs show it: without the password.
    pub fn debug_text(&self) -> (text: String)
        ensures
            text@ == redacted(self@),
    {
        let mut text = labelled(
            "VmCredential { username: ",
            &quoted(self.username.as_str()),
        );
        text.append(", password: \"[REDACTED]\" }");
        text
    }
}

/// Two credentials of one user look the same in logs, whatever their passwords.
pub proof fn law_debug_text_hides_the_password(a: CredentialView, b: CredentialView)
    requires
        a.username == b.username,
    ensures
        redacted(a) == redacted(b),
{
}

// ---------------------------------------------------------------------------
// Script results
// ---------------------------------------------------------------------------

/// Captured output from a PowerShell script run.
#[derive(Debug)]
pub struct ScriptResult {
    pub exit_code: i32,
    pub stdout: String,
    pub stderr: String,
    pub duration: Duration,
}

/// What a [`ScriptResult`] holds.
pub struct ScriptResultView {
    pub exit_code: i32,
    pub stdout: Seq<char>,
    pub stderr: Seq<char>,
    pub duration: nat,
}

impl View for ScriptResult {
    type V = ScriptResultView;

    open spec fn view(&self) -> ScriptResultView {
        ScriptResultView {
            exit_code: self.exit_code,
            stdout: self.stdout@,
            stderr: self.stderr@,
            duration: self.duration@,
        }
    }
}

impl Clone for ScriptResult {
    fn clone(&self) -> (r: ScriptResult)
        ensures
            r@ == self@,
    {
        ScriptResult {
            exit_code: self.exit_code,
            stdout: self.stdout.clone(),
            stderr: self.stderr.clone(),
            duration: self.duration,
        }
    }
}

impl ScriptResult {
    /// Returns `true` when the script exited with code 0.
    pub fn success(&self) -> (b: bool)
        ensures
            b == (self.exit_code == 0),
    {
        self.exit_code == 0
    }
}

/// What came of running a script.
pub type Outcome = Result<ScriptResultView, PsRunnerErrorView>;

/// What came of running a script.
pub open spec fn outcome_of(r: Result<ScriptResult, PsRunnerError>) -> Outcome {
    match r {
        Ok(result) => Ok(result@),
        Err(e) => Err(e@),
    }
}

/// Whether a script ran to its end with exit code 0.
pub open spec fn succeeded(o: Outcome) -> bool {
    o matches Ok(r) && r.exit_code == 0
}

// ---------------------------------------------------------------------------
// Embedded scripts
// ---------------------------------------------------------------------------

/// Embedded text of `Install-DriverOnVM.ps1`; empty, so that it is loaded at run time.
pub const INSTALL_SCRIPT: &'static str = "";

/// Embedded text of `Verify-DriverOnVM.ps1`; empty, so that it is loaded at run time.
pub const VERIFY_SCRIPT: &'static str = "";

/// Embedded text of `Capture-DriverLogs.ps1`; empty, so that it is loaded at run time.
pub const CAPTURE_SCRIPT: &'static str = "";

/// Known script names with their (possibly empty) embedded content.
pub open spec fn known_scripts() -> Pairs {
    seq![
        ("Install-DriverOnVM.ps1"@, INSTALL_SCRIPT@),
        ("Verify-DriverOnVM.ps1"@, VERIFY_SCRIPT@),
        ("Capture-DriverLogs.ps1"@, CAPTURE_SCRIPT@),
    ]
}

/// Known script names with their (possibly empty) embedded content.
pub fn embedded_scripts() -> (scripts: Details)
    ensures
        scripts@ == known_scripts(),
{
    let mut scripts = Details::new();
    scripts.insert("Install-DriverOnVM.ps1".to_owned(), INSTALL_SCRIPT.to_owned());
    scripts.insert("Verify-DriverOnVM.ps1".to_owned(), VERIFY_SCRIPT.to_owned());
    scripts.insert("Capture-DriverLogs.ps1".to_owned(), CAPTURE_SCRIPT.to_owned());
    proof {
        reveal_with_fuel(details::updated, 4);
        reveal_strlit("Install-DriverOnVM.ps1");
        reveal_strlit("Verify-DriverOnVM.ps1");
        reveal_strlit("Capture-DriverLogs.ps1");
        assert("Install-DriverOnVM.ps1"@[0] == 'I');
        assert("Verify-DriverOnVM.ps1"@[0] == 'V');
        assert("Capture-DriverLogs.ps1"@[0] == 'C');
        assert(scripts@ =~= known_scripts());
    }
    scripts
}

/// Where a script may lie, each place as the components of a path: next to the
/// executable, in the working directory, in the source tree, and in the directory that
/// `cargo run` names.
pub open spec fn candidates_of(
    exe_dir: Seq<char>,
    name: Seq<char>,
    manifest_dir: Option<Seq<char>>,
) -> Seq<Seq<Seq<char>>> {
    seq![
        seq![exe_dir, "scripts"@, name],
        seq!["scripts"@, name],
        seq!["tools/driver-test-cli-v2/scripts"@, name],
    ] + match manifest_dir {
        Some(dir) => seq![seq![dir, "scripts"@, name]],
        None => seq![],
    }
}

/// The components of several paths.
pub open spec fn components(v: Seq<Vec<String>>) -> Seq<Seq<Seq<char>>> {
    Seq::new(v.len(), |i: int| text::texts(v[i]@))
}

fn components_in(dir: &str, name: &str) -> (path: Vec<String>)
    ensures
        text::texts(path@) == seq![dir@, name@],
{
    let mut path: Vec<String> = Vec::new();
    path.push(dir.to_owned());
    path.push(name.to_owned());
    assert(text::texts(path@) =~= seq![dir@, name@]);
    path
}

fn components_under(base: &str, name: &str) -> (path: Vec<String>)
    ensures
        text::texts(path@) == seq![base@, "scripts"@, name@],
{
    let mut path: Vec<String> = Vec::new();
    path.push(base.to_owned());
    path.push("scripts".to_owned());
    path.push(name.to_owned());
    assert(text::texts(path@) =~= seq![base@, "scripts"@, name@]);
    path
}

/// Where the script `name` may lie, in the order in which the places are tried.
pub fn script_candidates(exe_dir: &str, name: &str, manifest_dir: &Option<String>) -> (places: Vec<
    Vec<String>,
>)
    ensures
        components(places@) == candidates_of(exe_dir@, name@, text::opt_text(*manifest_dir)),
{
    let mut places: Vec<Vec<String>> = Vec::new();
    places.push(components_under(exe_dir, name));
    places.push(components_in("scripts", name));
    places.push(components_in("tools/driver-test-cli-v2/scripts", name));
    match manifest_dir {
        Some(dir) => {
            places.push(components_under(dir.as_str(), name));
        },
        None => {},
    }
    assert(components(places@) =~= candidates_of(
        exe_dir@,
        name@,
        text::opt_text(*manifest_dir),
    ));
    places
}

/// What stands at one of the places where a script may lie.
#[derive(Debug)]
pub enum Probe {
    /// Nothing.
    Absent,
    /// A file with this text.
    Content(String),
    /// A file that could not be read, for this reason.
    Unreadable(String),
}

/// What a [`Probe`] holds.
pub enum ProbeView {
    Absent,
    Content(Seq<char>),
    Unreadable(Seq<char>),
}

impl View for Probe {
    type V = ProbeView;

    open spec fn view(&self) -> ProbeView {
        match self {
            Probe::Absent => ProbeView::Absent,
            Probe::Content(content) => ProbeView::Content(content@),
            Probe::Unreadable(message) => ProbeView::Unreadable(message@),
        }
    }
}

/// What several probes hold.
pub open spec fn probes_of(v: Seq<Probe>) -> Seq<ProbeView> {
    Seq::new(v.len(), |i: int| v[i]@)
}

/// The text of the first file found, or why there is none.
pub open spec fn first_found(name: Seq<char>, probes: Seq<ProbeView>) -> Result<
    Seq<char>,
    PsRunnerErrorView,
>
    decreases probes.len(),
{
    if probes.len() == 0 {
        Err(PsRunnerErrorView::ScriptNotFound(name))
    } else {
        match probes[0] {
            ProbeView::Absent => first_found(name, probes.drop_first()),
            ProbeView::Content(content) => Ok(content),
            ProbeView::Unreadable(message) => Err(PsRunnerErrorView::Io(message)),
        }
    }
}

/// The text that loading a script gave, or why it gave none.
pub open spec fn loaded_of(r: Result<String, PsRunnerError>) -> Result<
    Seq<char>,
    PsRunnerErrorView,
> {
    match r {
        Ok(content) => Ok(content@),
        Err(e) => Err(e@),
    }
}

/// The text of the script `name`, from what stands at the places where it may lie.
pub fn load_script_from_disk(name: &str, probes: &Vec<Probe>) -> (r: Result<String, PsRunnerError>)
    ensures
        loaded_of(r) == first_found(name@, probes_of(probes@)),
{
    let mut i: usize = 0;
    assert(probes_of(probes@).skip(0) =~= probes_of(probes@));
    while i < probes.len()
        invariant
            i <= probes@.len(),
            first_found(name@, probes_of(probes@).skip(i as int)) == first_found(
                name@,
                probes_of(probes@),
            ),
        decreases probes@.len() - i,
    {
        assert(probes_of(probes@).skip(i as int).drop_first() =~= probes_of(probes@).skip(i + 1));
        match &probes[i] {
            Probe::Absent => {},
            Probe::Content(content) => {
                return Ok(content.clone());
            },
            Probe::Unreadable(message) => {
                return Err(PsRunnerError::Io(message.clone()));
            },
        }
        i = i + 1;
    }
    Err(PsRunnerError::ScriptNotFound(name.to_owned()))
}

/// The text of a script: the embedded one, or where that is empty the one from disk.
pub open spec fn resolved_script(
    name: Seq<char>,
    embedded: Seq<char>,
    loaded: Option<Seq<char>>,
) -> Result<Seq<char>, PsRunnerErrorView> {
    if embedded.len() > 0 {
        Ok(embedded)
    } else if loaded is Some && loaded->0.len() > 0 {
        Ok(loaded->0)
    } else {
        Err(PsRunnerErrorView::EmptyScript(name))
    }
}

/// The texts of the scripts `embedded`, where `loaded` holds what was found on disk. The
/// first script without any text is the error.
pub open spec fn resolved_scripts(embedded: Pairs, loaded: Pairs) -> Result<Pairs, PsRunnerErrorView>
    decreases embedded.len(),
{
    if embedded.len() == 0 {
        Ok(Pairs::empty())
    } else {
        let (name, content) = embedded.last();
        match resolved_scripts(embedded.drop_last(), loaded) {
            Err(e) => Err(e),
            Ok(before) => match resolved_script(name, content, details::lookup(loaded, name)) {
                Err(e) => Err(e),
                Ok(text) => Ok(details::updated(before, name, text)),
            },
        }
    }
}

/// The text of the script `name`.
pub fn resolve_script(name: &str, embedded: &str, loaded: Option<&String>) -> (r: Result<
    String,
    PsRunnerError,
>)
    ensures
        loaded_of(r) == resolved_script(
            name@,
            embedded@,
            match loaded {
                Some(content) => Some(content@),
                None => None,
            },
        ),
{
    if embedded.unicode_len() > 0 {
        return Ok(embedded.to_owned());
    }
    match loaded {
        Some(content) => {
            if content.as_str().unicode_len() > 0 {
                return Ok(content.clone());
            }
        },
        None => {},
    }
    Err(PsRunnerError::EmptyScript(name.to_owned()))
}

// ---------------------------------------------------------------------------
// Script runs
// ---------------------------------------------------------------------------

/// The file to which an elevated session sends what its script writes.
pub const ELEVATED_STDOUT: &'static str = "elevated_stdout.txt";

/// The file to which an elevated session sends the errors of its script.
pub const ELEVATED_STDERR: &'static str = "elevated_stderr.txt";

/// A script to run.
pub struct ScriptJob {
    /// Script filename (e.g. `"Install-DriverOnVM.ps1"`).
    pub name: String,
    /// The text to write to that file before the run; `None` for a known script.
    pub content: Option<String>,
    /// Arguments forwarded to the script.
    pub args: Vec<String>,
    /// Maximum wall-clock time before the process is killed.
    pub timeout: Duration,
    /// Optional credential for PS Direct sessions.
    pub credential: Option<VmCredential>,
    /// Whether the script runs in an elevated (admin) PowerShell session.
    pub elevated: bool,
}

/// What a [`ScriptJob`] holds.
pub struct JobView {
    pub name: Seq<char>,
    pub content: Option<Seq<char>>,
    pub args: Seq<Seq<char>>,
    pub timeout: nat,
    pub credential: Option<CredentialView>,
    pub elevated: bool,
}

impl View for ScriptJob {
    type V = JobView;

    open spec fn view(&self) -> JobView {
        JobView {
            name: self.name@,
            content: text::opt_text(self.content),
            args: text::texts(self.args@),
            timeout: self.timeout@,
            credential: opt_credential(self.credential),
            elevated: self.elevated,
        }
    }
}

/// Where the files of a run lie on the host.
pub struct ScriptPaths {
    /// The script.
    pub script: String,
    /// [`ELEVATED_STDOUT`] in the directory of the scripts.
    pub stdout_file: String,
    /// [`ELEVATED_STDERR`] in the directory of the scripts.
    pub stderr_file: String,
}

/// What a [`ScriptPaths`] holds.
pub struct PathsView {
    pub script: Seq<char>,
    pub stdout_file: Seq<char>,
    pub stderr_file: Seq<char>,
}

impl View for ScriptPaths {
    type V = PathsView;

    open spec fn view(&self) -> PathsView {
        PathsView {
            script: self.script@,
            stdout_file: self.stdout_file@,
            stderr_file: self.stderr_file@,
        }
    }
}

/// How a process came to its end.
pub struct ProcessExit {
    /// Whether the watchdog killed it.
    pub timed_out: bool,
    /// Its exit code, if it has one.
    pub code: Option<i32>,
    /// What it wrote to its standard output.
    pub stdout: Vec<u8>,
    /// What it wrote to its standard error output.
    pub stderr: Vec<u8>,
    /// How long it ran.
    pub duration: Duration,
}

/// What a [`ProcessExit`] holds.
pub struct ExitView {
    pub timed_out: bool,
    pub code: Option<i32>,
    pub stdout: Seq<u8>,
    pub stderr: Seq<u8>,
    pub duration: nat,
}

impl View for ProcessExit {
    type V = ExitView;

    open spec fn view(&self) -> ExitView {
        ExitView {
            timed_out: self.timed_out,
            code: self.code,
            stdout: self.stdout@,
            stderr: self.stderr@,
            duration: self.duration@,
        }
    }
}

/// News in the run of a script.
pub enum RunEvent {
    /// Whether the script is there.
    Located(bool),
    /// What the command of [`admin_probe`] wrote; `None` when it could not be run.
    AdminProbe(Option<Vec<u8>>),
    /// The process ended.
    Exited(ProcessExit),
    /// The process could not be started or waited for, for this reason.
    Failed(String),
}

/// What a [`RunEvent`] holds.
pub enum RunEventView {
    Located(bool),
    AdminProbe(Option<Seq<u8>>),
    Exited(ExitView),
    Failed(Seq<char>),
}

/// The bytes that an optional vector holds.
pub open spec fn opt_bytes(o: Option<Vec<u8>>) -> Option<Seq<u8>> {
    match o {
        Some(v) => Some(v@),
        None => None,
    }
}

impl View for RunEvent {
    type V = RunEventView;

    open spec fn view(&self) -> RunEventView {
        match self {
            RunEvent::Located(found) => RunEventView::Located(*found),
            RunEvent::AdminProbe(answer) => RunEventView::AdminProbe(opt_bytes(*answer)),
            RunEvent::Exited(exit) => RunEventView::Exited(exit@),
            RunEvent::Failed(message) => RunEventView::Failed(message@),
        }
    }
}

/// What to do next in the run of a script.
pub enum RunAction {
    /// Run `powershell.exe` with the arguments of [`admin_probe`].
    ProbeAdmin,
    /// Start `powershell.exe` with these arguments and wait for its end.
    Spawn(Vec<String>),
    /// Nothing: this came of the run.
    Finished(Result<ScriptResult, PsRunnerError>),
}

/// What a [`RunAction`] holds.
pub enum RunActionView {
    ProbeAdmin,
    Spawn(Seq<Seq<char>>),
    Finished(Outcome),
}

impl View for RunAction {
    type V = RunActionView;

    open spec fn view(&self) -> RunActionView {
        match self {
            RunAction::ProbeAdmin => RunActionView::ProbeAdmin,
            RunAction::Spawn(args) => RunActionView::Spawn(text::texts(args@)),
            RunAction::Finished(outcome) => RunActionView::Finished(outcome_of(*outcome)),
        }
    }
}

/// The text that the standard library reads from bytes that may not be valid UTF-8.
pub uninterp spec fn lossy_text(bytes: Seq<u8>) -> Seq<char>;

/// Whether the text that is read from `bytes` is the text they encode, if they are valid
/// UTF-8.
pub open spec fn reads_valid_text(bytes: Seq<u8>) -> bool {
    vstd::utf8::valid_utf8(bytes) ==> lossy_text(bytes) == vstd::utf8::decode_utf8(bytes)
}

/// `String::from_utf8_lossy`, named by [`lossy_text`]: valid UTF-8 is decoded, and what
/// is not is replaced by U+FFFD. How many replacements a stretch of invalid bytes gives is
/// left unsaid.
#[verifier::external_body]
fn from_utf8_lossy(bytes: &Vec<u8>) -> (text: String)
    ensures
        text@ == lossy_text(bytes@),
        vstd::utf8::valid_utf8(bytes@) ==> text@ == vstd::utf8::decode_utf8(bytes@),
{
    String::from_utf8_lossy(bytes.as_slice()).to_string()
}

/// Whether the answer to the question for administrator rights is yes.
pub open spec fn is_admin(answer: Option<Seq<u8>>) -> bool {
    answer matches Some(bytes) && text::equal_ignoring_case(
        text::trim_of(lossy_text(bytes)),
        "true"@,
    )
}

/// The arguments of `powershell.exe` that ask whether the session has administrator
/// rights.
pub open spec fn probe_args() -> Seq<Seq<char>> {
    seq![
        "-NoProfile"@,
        "-Command"@,
        "([Security.Principal.WindowsPrincipal] [Security.Principal.WindowsIdentity]::GetCurrent()).IsInRole([Security.Principal.WindowsBuiltInRole]::Administrator)"@,
    ]
}

/// The arguments of `powershell.exe` that ask whether the session has administrator
/// rights.
pub fn admin_probe() -> (args: Vec<String>)
    ensures
        text::texts(args@) == seq![
            "-NoProfile"@,
            "-Command"@,
            "([Security.Principal.WindowsPrincipal] [Security.Principal.WindowsIdentity]::GetCurrent()).IsInRole([Security.Principal.WindowsBuiltInRole]::Administrator)"@,
        ],
        text::texts(args@) == probe_args(),
{
    let mut args: Vec<String> = Vec::new();
    args.push("-NoProfile".to_owned());
    args.push("-Command".to_owned());
    args.push(
        "([Security.Principal.WindowsPrincipal] [Security.Principal.WindowsIdentity]::GetCurrent()).IsInRole([Security.Principal.WindowsBuiltInRole]::Administrator)".to_owned(),
    );
    assert(text::texts(args@) =~= seq![
        "-NoProfile"@,
        "-Command"@,
        "([Security.Principal.WindowsPrincipal] [Security.Principal.WindowsIdentity]::GetCurrent()).IsInRole([Security.Principal.WindowsBuiltInRole]::Administrator)"@,
    ]);
    args
}

/// Whether the current process has administrator rights, by what the command of
/// [`admin_probe`] wrote; `None` when it could not be run.
pub fn is_running_as_admin(answer: &Option<Vec<u8>>) -> (b: bool)
    ensures
        b == is_admin(opt_bytes(*answer)),
        answer matches Some(bytes) ==> reads_valid_text(bytes@),
{
    match answer {
        Some(bytes) => {
            let text = from_utf8_lossy(bytes);
            is_true(text.as_str())
        },
        None => false,
    }
}

/// Whether `s` without the white space around it is the word `true`, in any case of
/// letters.
pub fn is_true(s: &str) -> (b: bool)
    ensures
        b == text::equal_ignoring_case(text::trim_of(s@), "true"@),
{
    let word = trim(&chars_of(s));
    eq_ignore_ascii_case(&word, &chars_of("true"))
}

/// The arguments of `powershell.exe` for `job`, with or without elevation. A script with a
/// credential is handed it either way.
pub open spec fn launch_args(job: JobView, paths: PathsView, elevate: bool) -> Seq<Seq<char>> {
    if elevate {
        command::encoded_args(
            command::elevated_command(
                paths.script,
                job.args,
                job.credential,
                paths.stdout_file,
                paths.stderr_file,
            ),
        )
    } else {
        match job.credential {
            Some(c) => command::encoded_args(
                command::credential_command(paths.script, job.args, c),
            ),
            None => command::direct_args(paths.script, job.args),
        }
    }
}

/// The arguments of `powershell.exe` for `job`, without elevation.
fn launch(job: &ScriptJob, paths: &ScriptPaths) -> (args: Vec<String>)
    ensures
        text::texts(args@) == launch_args(job@, paths@, false),
{
    match &job.credential {
        Some(c) => spawn_with_credential(paths.script.as_str(), &job.args, c),
        None => spawn_direct(paths.script.as_str(), &job.args),
    }
}

/// What came of a script whose process ended with `exit`.
pub open spec fn exit_outcome(timeout: nat, exit: ExitView) -> Outcome {
    if exit.timed_out {
        Err(PsRunnerErrorView::Timeout(timeout))
    } else {
        Ok(
            ScriptResultView {
                exit_code: exit.code.unwrap_or(-1i32),
                stdout: lossy_text(exit.stdout),
                stderr: lossy_text(exit.stderr),
                duration: exit.duration,
            },
        )
    }
}

/// What to do next in the run of `job`, after `event`.
pub open spec fn run_step(job: JobView, paths: PathsView, event: RunEventView) -> RunActionView {
    match event {
        RunEventView::Located(found) => if !found {
            RunActionView::Finished(Err(PsRunnerErrorView::ScriptNotFound(job.name)))
        } else if job.elevated {
            RunActionView::ProbeAdmin
        } else {
            RunActionView::Spawn(launch_args(job, paths, false))
        },
        RunEventView::AdminProbe(answer) => RunActionView::Spawn(
            launch_args(job, paths, job.elevated && !is_admin(answer)),
        ),
        RunEventView::Exited(exit) => RunActionView::Finished(exit_outcome(job.timeout, exit)),
        RunEventView::Failed(message) => RunActionView::Finished(Err(PsRunnerErrorView::Io(message))),
    }
}

/// What the watchdog of a script does next.
#[derive(Debug)]
pub enum WatchdogStep {
    /// The script ended: stop watching.
    Stop,
    /// Look again after this time.
    Sleep(Duration),
    /// The time is over: kill the process.
    Kill,
}

/// What a [`WatchdogStep`] says.
pub enum WatchdogView {
    Stop,
    Sleep(nat),
    Kill,
}

impl View for WatchdogStep {
    type V = WatchdogView;

    open spec fn view(&self) -> WatchdogView {
        match self {
            WatchdogStep::Stop => WatchdogView::Stop,
            WatchdogStep::Sleep(pause) => WatchdogView::Sleep(pause@),
            WatchdogStep::Kill => WatchdogView::Kill,
        }
    }
}

/// What the watchdog does next, once `elapsed` of `timeout` has passed.
pub open spec fn watch(elapsed: nat, timeout: nat, cancelled: bool) -> WatchdogView {
    if cancelled {
        WatchdogView::Stop
    } else if elapsed >= timeout {
        WatchdogView::Kill
    } else {
        WatchdogView::Sleep(100_000_000)
    }
}

/// What the watchdog does next, once `elapsed` of `timeout` has passed: it looks every
/// 100 ms, so that it stops soon after the script does.
pub fn watchdog_step(elapsed: &Duration, timeout: &Duration, cancelled: bool) -> (step:
    WatchdogStep)
    ensures
        cancelled <==> step is Stop,
        !cancelled ==> (step is Kill <==> elapsed@ >= timeout@),
        step matches WatchdogStep::Sleep(d) ==> d@ == 100_000_000,
        step@ == watch(elapsed@, timeout@, cancelled),
{
    if cancelled {
        WatchdogStep::Stop
    } else if elapsed.reaches(timeout) {
        WatchdogStep::Kill
    } else {
        WatchdogStep::Sleep(Duration::from_millis(100))
    }
}

// ---------------------------------------------------------------------------
// Retries
// ---------------------------------------------------------------------------

/// The seconds to wait before the attempt number `attempt`, counted from 0: 1, 2, 4 and so
/// on before the second, the third and the fourth, and 30 at most.
pub open spec fn backoff_of(attempt: nat) -> nat {
    let doubling = vstd::arithmetic::power2::pow2((attempt - 1) as nat);
    if doubling < 30 {
        doubling
    } else {
        30
    }
}

/// The seconds to wait before the attempt number `attempt`, counted from 0.
pub fn backoff_secs(attempt: u32) -> (secs: u64)
    requires
        attempt > 0,
    ensures
        secs == backoff_of(attempt as nat),
{
    proof {
        vstd::arithmetic::power2::lemma2_to64();
        if attempt > 6 {
            vstd::arithmetic::power2::lemma_pow2_strictly_increases(5, (attempt - 1) as nat);
        }
    }
    if attempt == 1 {
        1
    } else if attempt == 2 {
        2
    } else if attempt == 3 {
        4
    } else if attempt == 4 {
        8
    } else if attempt == 5 {
        16
    } else {
        30
    }
}

/// How far the attempts at a script have come.
#[derive(Debug)]
pub struct RetryState {
    attempt: u32,
    max_retries: u32,
}

/// What a [`RetryState`] holds: the number of the current attempt, counted from 0, and the
/// number of the last one.
pub struct RetryView {
    pub attempt: nat,
    pub max_retries: nat,
}

impl View for RetryState {
    type V = RetryView;

    closed spec fn view(&self) -> RetryView {
        RetryView { attempt: self.attempt as nat, max_retries: self.max_retries as nat }
    }
}

/// The first of `max_retries + 1` attempts.
pub open spec fn first_attempt(max_retries: nat) -> RetryView {
    RetryView { attempt: 0, max_retries }
}

impl RetryState {
    #[verifier::type_invariant]
    spec fn inv(self) -> bool {
        self.attempt <= self.max_retries
    }

    /// The first of `max_retries + 1` attempts.
    pub fn new(max_retries: u32) -> (state: RetryState)
        ensures
            state@ == (RetryView { attempt: 0, max_retries: max_retries as nat }),
            state@ == first_attempt(max_retries as nat),
    {
        RetryState { attempt: 0, max_retries }
    }
}

/// News in the attempts at a script.
pub enum RetryEvent {
    /// The attempts are to begin.
    Begin,
    /// What came of the current attempt.
    Attempted(Result<ScriptResult, PsRunnerError>),
}

/// What a [`RetryEvent`] holds.
pub enum RetryEventView {
    Begin,
    Attempted(Outcome),
}

impl View for RetryEvent {
    type V = RetryEventView;

    open spec fn view(&self) -> RetryEventView {
        match self {
            RetryEvent::Begin => RetryEventView::Begin,
            RetryEvent::Attempted(outcome) => RetryEventView::Attempted(outcome_of(*outcome)),
        }
    }
}

/// What to do next in the attempts at a script.
pub enum RetryStep {
    /// Wait so long and run this job.
    Attempt(Duration, ScriptJob),
    /// Nothing: this came of the attempts.
    Finished(Result<ScriptResult, PsRunnerError>),
}

/// What a [`RetryStep`] holds.
pub enum RetryStepView {
    Attempt(nat, JobView),
    Finished(Outcome),
}

impl View for RetryStep {
    type V = RetryStepView;

    open spec fn view(&self) -> RetryStepView {
        match self {
            RetryStep::Attempt(backoff, job) => RetryStepView::Attempt(backoff@, job@),
            RetryStep::Finished(outcome) => RetryStepView::Finished(outcome_of(*outcome)),
        }
    }
}

/// The job of one attempt: attempts are never elevated.
pub open spec fn attempt_of(job: JobView) -> JobView {
    JobView { elevated: false, ..job }
}

/// The job of one attempt at `job`: attempts are never elevated.
pub fn retry_job(job: &ScriptJob) -> (attempt: ScriptJob)
    ensures
        attempt@ == (JobView { elevated: false, ..job@ }),
{
    ScriptJob {
        name: job.name.clone(),
        content: copy_opt(&job.content),
        args: copy_strings(&job.args),
        timeout: job.timeout,
        credential: match &job.credential {
            Some(c) => Some(c.clone()),
            None => None,
        },
        elevated: false,
    }
}

/// Whether another attempt can help: after a non-zero exit code and after a timeout.
pub open spec fn is_transient(o: Outcome) -> bool {
    match o {
        Ok(r) => r.exit_code != 0,
        Err(e) => e is Timeout,
    }
}

/// What an attempt counts for when it is the last: a non-zero exit code is an error.
pub open spec fn verdict_of(o: Outcome) -> Outcome {
    match o {
        Ok(r) => if r.exit_code == 0 {
            o
        } else {
            Err(PsRunnerErrorView::ScriptFailed { exit_code: r.exit_code, stderr: r.stderr })
        },
        Err(_) => o,
    }
}

/// What to do in the attempts at `job` after `event`, and where the attempts then stand. The
/// first attempt comes at once, the others after a wait.
pub open spec fn retry_step(job: JobView, state: RetryView, event: RetryEventView) -> (
    RetryView,
    RetryStepView,
) {
    match event {
        RetryEventView::Begin => (
            RetryView { attempt: 0, ..state },
            RetryStepView::Attempt(0, attempt_of(job)),
        ),
        RetryEventView::Attempted(o) => if is_transient(o) && state.attempt < state.max_retries {
            let next = state.attempt + 1;
            (
                RetryView { attempt: next, ..state },
                RetryStepView::Attempt(duration::seconds(backoff_of(next)), attempt_of(job)),
            )
        } else {
            (state, RetryStepView::Finished(verdict_of(o)))
        },
    }
}

/// What comes of attempts at `job` that give `outcomes`, `None` when there are too few of
/// them.
pub open spec fn retry_run(job: JobView, state: RetryView, outcomes: Seq<Outcome>) -> Option<
    Outcome,
>
    decreases outcomes.len(),
{
    if outcomes.len() == 0 {
        None
    } else {
        let (next, step) = retry_step(job, state, RetryEventView::Attempted(outcomes[0]));
        match step {
            RetryStepView::Attempt(_, _) => retry_run(job, next, outcomes.drop_first()),
            RetryStepView::Finished(o) => Some(o),
        }
    }
}

/// No attempt is elevated, whatever the job asks for, and every attempt is otherwise the
/// job itself.
pub proof fn law_attempts_are_not_elevated(job: JobView, state: RetryView, event: RetryEventView)
    ensures
        retry_step(job, state, event).1 matches RetryStepView::Attempt(_, attempt)
            ==> !attempt.elevated && attempt == (JobView { elevated: false, ..job }),
{
}

/// The attempts end with the first outcome that another attempt cannot mend, or with the
/// last attempt allowed, and count for what that outcome counts for.
pub proof fn law_first_decisive_attempt_counts(
    job: JobView,
    state: RetryView,
    outcomes: Seq<Outcome>,
    k: int,
)
    requires
        state.attempt <= state.max_retries,
        0 <= k < outcomes.len(),
        state.attempt + k <= state.max_retries,
        forall|i: int| 0 <= i < k ==> is_transient(#[trigger] outcomes[i]),
        !is_transient(outcomes[k]) || state.attempt + k == state.max_retries,
    ensures
        retry_run(job, state, outcomes) == Some(verdict_of(outcomes[k])),
    decreases k,
{
    if k > 0 {
        assert(is_transient(outcomes[0]));
        let next = retry_step(job, state, RetryEventView::Attempted(outcomes[0])).0;
        let rest = outcomes.drop_first();
        assert forall|i: int| 0 <= i < k - 1 implies is_transient(#[trigger] rest[i]) by {
            assert(rest[i] == outcomes[i + 1]);
        }
        law_first_decisive_attempt_counts(job, next, rest, k - 1);
    }
}

/// One attempt more than the retries allowed always brings the run to an end.
pub proof fn law_retries_end(job: JobView, state: RetryView, outcomes: Seq<Outcome>)
    requires
        state.attempt <= state.max_retries,
        outcomes.len() > state.max_retries - state.attempt,
    ensures
        retry_run(job, state, outcomes) is Some,
    decreases outcomes.len(),
{
    if is_transient(outcomes[0]) && state.attempt < state.max_retries {
        let next = retry_step(job, state, RetryEventView::Attempted(outcomes[0])).0;
        law_retries_end(job, next, outcomes.drop_first());
    }
}

/// A run of attempts never ends without a verdict on its last attempt: the retries are
/// not reported as exhausted unless an attempt itself reports it.
pub proof fn law_retries_are_never_exhausted(
    job: JobView,
    state: RetryView,
    outcomes: Seq<Outcome>,
)
    requires
        forall|i: int|
            0 <= i < outcomes.len() ==> !((#[trigger] outcomes[i]) matches Err(e)
                && e is RetriesExhausted),
    ensures
        !(retry_run(job, state, outcomes) matches Some(Err(e)) && e is RetriesExhausted),
    decreases outcomes.len(),
{
    if outcomes.len() > 0 {
        assert(!(outcomes[0] matches Err(e) && e is RetriesExhausted));
        let rest = outcomes.drop_first();
        assert forall|i: int| 0 <= i < rest.len() implies !((#[trigger] rest[i]) matches Err(e)
            && e is RetriesExhausted) by {
            assert(rest[i] == outcomes[i + 1]);
        }
        let next = retry_step(job, state, RetryEventView::Attempted(outcomes[0])).0;
        law_retries_are_never_exhausted(job, next, rest);
    }
}

/// The wait before an attempt is at least one second, at most thirty, and never shorter
/// than the wait before an earlier one.
pub proof fn law_backoff_grows_to_its_cap(earlier: nat, later: nat)
    requires
        0 < earlier <= later,
    ensures
        1 <= backoff_of(earlier) <= backoff_of(later) <= 30,
{
    vstd::arithmetic::power2::lemma_pow2_pos((earlier - 1) as nat);
    if earlier < later {
        vstd::arithmetic::power2::lemma_pow2_strictly_increases(
            (earlier - 1) as nat,
            (later - 1) as nat,
        );
    }
}

// ---------------------------------------------------------------------------
// PsRunner
// ---------------------------------------------------------------------------

/// Main PowerShell script runner.
///
/// Each known script lies in `scripts_dir`, so that `powershell.exe` can be pointed at a
/// concrete file.
#[derive(Debug)]
pub struct PsRunner {
    scripts_dir: String,
}

impl View for PsRunner {
    type V = Seq<char>;

    /// The directory of the scripts.
    closed spec fn view(&self) -> Seq<char> {
        self.scripts_dir@
    }
}

/// What becomes of a new runner: it and the files that it needs, or why there is none.
pub open spec fn runner_of(r: Result<(PsRunner, Details), PsRunnerError>) -> Result<
    (Seq<char>, Pairs),
    PsRunnerErrorView,
> {
    match r {
        Ok((runner, files)) => Ok((runner@, files@)),
        Err(e) => Err(e@),
    }
}

impl PsRunner {
    /// A runner whose scripts lie in `scripts_dir`, with the files to write there: name
    /// and text of every known script. `loaded` holds the texts that were found on disk
    /// for the scripts whose embedded text is empty.
    pub fn new(scripts_dir: String, loaded: &Details) -> (r: Result<
        (PsRunner, Details),
        PsRunnerError,
    >)
        ensures
            runner_of(r) == (match resolved_scripts(known_scripts(), loaded@) {
                Ok(files) => Ok((scripts_dir@, files)),
                Err(e) => Err(e),
            }),
    {
        let embedded = embedded_scripts();
        let mut files = Details::new();
        let mut i: usize = 0;
        assert(embedded@.take(0) =~= Pairs::empty());
        while i < embedded.len()
            invariant
                embedded@ == known_scripts(),
                i <= embedded@.len(),
                resolved_scripts(embedded@.take(i as int), loaded@) == Ok::<
                    Pairs,
                    PsRunnerErrorView,
                >(files@),
            decreases embedded@.len() - i,
        {
            let (name, content) = embedded.entry(i);
            proof {
                let upto = embedded@.take(i + 1);
                assert(upto.drop_last() =~= embedded@.take(i as int));
                assert(upto.last() == embedded@[i as int]);
            }
            match resolve_script(name.as_str(), content.as_str(), loaded.get(name.as_str())) {
                Ok(text) => {
                    files.insert(name.clone(), text);
                },
                Err(e) => {
                    proof {
                        lemma_resolution_stops(embedded@, loaded@, i + 1);
                    }
                    return Err(e);
                },
            }
            i = i + 1;
        }
        assert(embedded@.take(embedded@.len() as int) =~= embedded@);
        Ok((PsRunner { scripts_dir }, files))
    }

    /// The directory of the scripts.
    pub fn scripts_dir(&self) -> (dir: &String)
        ensures
            dir@ == self@,
    {
        &self.scripts_dir
    }

    /// The next thing to do in a run of the script of `job`, after `event`.
    ///
    /// A run starts with the news whether the script is there. An elevated run asks
    /// first whether the session has administrator rights already, and goes through
    /// `Start-Process -Verb RunAs` only if it has not. A script with a credential is handed
    /// it, elevated or not.
    pub fn run_script(&self, job: &ScriptJob, paths: &ScriptPaths, event: RunEvent) -> (action:
        RunAction)
        ensures
            action@ == run_step(job@, paths@, event@),
            event@ matches RunEventView::Exited(exit) ==> exit.timed_out || (reads_valid_text(
                exit.stdout,
            ) && reads_valid_text(exit.stderr)),
    {
        match event {
            RunEvent::Located(false) => {
                RunAction::Finished(Err(PsRunnerError::ScriptNotFound(job.name.clone())))
            },
            RunEvent::Located(true) => {
                if job.elevated {
                    RunAction::ProbeAdmin
                } else {
                    RunAction::Spawn(launch(job, paths))
                }
            },
            RunEvent::AdminProbe(answer) => {
                if job.elevated && !is_running_as_admin(&answer) {
                    RunAction::Spawn(
                        spawn_elevated(
                            paths.script.as_str(),
                            &job.args,
                            &job.credential,
                            paths.stdout_file.as_str(),
                            paths.stderr_file.as_str(),
                        ),
                    )
                } else {
                    RunAction::Spawn(launch(job, paths))
                }
            },
            RunEvent::Failed(message) => RunAction::Finished(Err(PsRunnerError::Io(message))),
            RunEvent::Exited(exit) => {
                if exit.timed_out {
                    RunAction::Finished(Err(PsRunnerError::Timeout(job.timeout)))
                } else {
                    RunAction::Finished(
                        Ok(
                            ScriptResult {
                                exit_code: match exit.code {
                                    Some(code) => code,
                                    None => -1,
                                },
                                stdout: from_utf8_lossy(&exit.stdout),
                                stderr: from_utf8_lossy(&exit.stderr),
                                duration: exit.duration,
                            },
                        ),
                    )
                }
            },
        }
    }

    /// What to do next in the attempts at the script of `job`, after `event`: automatic retries
    /// with exponential backoff (1 s, 2 s, 4 s, ...). No attempt is elevated.
    pub fn run_with_retry(&self, job: &ScriptJob, state: &mut RetryState, event: RetryEvent) -> (step:
        RetryStep)
        ensures
            (final(state)@, step@) == retry_step(job@, old(state)@, event@),
    {
        proof {
            use_type_invariant(&*state);
        }
        let outcome = match event {
            RetryEvent::Begin => {
                state.attempt = 0;
                return RetryStep::Attempt(Duration::zero(), retry_job(job));
            },
            RetryEvent::Attempted(outcome) => outcome,
        };
        let transient = match &outcome {
            Ok(result) => !result.success(),
            Err(PsRunnerError::Timeout(_)) => true,
            Err(_) => false,
        };
        if transient && state.attempt < state.max_retries {
            state.attempt = state.attempt + 1;
            let backoff = Duration::from_secs(backoff_secs(state.attempt));
            return RetryStep::Attempt(backoff, retry_job(job));
        }
        match outcome {
            Ok(result) => {
                if result.success() {
                    RetryStep::Finished(Ok(result))
                } else {
                    RetryStep::Finished(
                        Err(
                            PsRunnerError::ScriptFailed {
                                exit_code: result.exit_code,
                                stderr: result.stderr,
                            },
                        ),
                    )
                }
            },
            Err(e) => RetryStep::Finished(Err(e)),
        }
    }
}

/// A script without text decides, whatever scripts follow.
proof fn lemma_resolution_stops(embedded: Pairs, loaded: Pairs, n: int)
    requires
        0 <= n <= embedded.len(),
        resolved_scripts(embedded.take(n), loaded) is Err,
    ensures
        resolved_scripts(embedded, loaded) == resolved_scripts(embedded.take(n), loaded),
    decreases embedded.len() - n,
{
    if n < embedded.len() {
        assert(embedded.take(n + 1).drop_last() =~= embedded.take(n));
        lemma_resolution_stops(embedded, loaded, n + 1);
    } else {
        assert(embedded.take(n) =~= embedded);
    }
}

/// A runner is made only where every known script has a text: no script is empty.
pub proof fn law_no_script_is_empty(embedded: Pairs, loaded: Pairs, files: Pairs, i: int)
    requires
        resolved_scripts(embedded, loaded) == Ok::<Pairs, PsRunnerErrorView>(files),
        0 <= i < embedded.len(),
    ensures
        details::lookup(files, embedded[i].0) matches Some(text) && text.len() > 0,
    decreases embedded.len(),
{
    let (name, content) = embedded.last();
    let before = resolved_scripts(embedded.drop_last(), loaded)->Ok_0;
    let text = resolved_script(name, content, details::lookup(loaded, name))->Ok_0;
    details::law_lookup_after_update(before, name, text, embedded[i].0);
    if embedded[i].0 != name {
        assert(embedded.drop_last()[i] == embedded[i]);
        law_no_script_is_empty(embedded.drop_last(), loaded, before, i);
    }
}

/// The first place at which anything stands decides what loading a script gives.
pub proof fn law_first_place_decides(name: Seq<char>, probes: Seq<ProbeView>, k: int)
    requires
        0 <= k < probes.len(),
        forall|i: int| 0 <= i < k ==> (#[trigger] probes[i]) is Absent,
        !(probes[k] is Absent),
    ensures
        first_found(name, probes) == first_found(name, seq![probes[k]]),
    decreases k,
{
    if k > 0 {
        assert(probes[0] is Absent);
        let rest = probes.drop_first();
        assert forall|i: int| 0 <= i < k - 1 implies (#[trigger] rest[i]) is Absent by {
            assert(rest[i] == probes[i + 1]);
        }
        law_first_place_decides(name, rest, k - 1);
    }
}

// ---------------------------------------------------------------------------
// Laws of runs
// ---------------------------------------------------------------------------

/// What an error says holds what it is about.
pub proof fn law_messages_tell_the_cause(
    text: Seq<char>,
    span: nat,
    exit_code: i32,
    retries: u32,
)
    ensures
        message_of(PsRunnerErrorView::Io(text)) == "I/O error: "@ + text,
        message_of(PsRunnerErrorView::ScriptNotFound(text)) == "script not found: "@ + text,
        message_of(PsRunnerErrorView::Timeout(span)) == "script timed out after "@
            + duration::debug_of(span),
        message_of(PsRunnerErrorView::ScriptFailed { exit_code, stderr: text })
            == "script failed with exit code "@ + numbers::signed_decimal(exit_code as int)
            + ": "@ + text,
        message_of(PsRunnerErrorView::RetriesExhausted(retries)) == "all "@ + numbers::decimal(
            retries as nat,
        ) + " retries exhausted"@,
        message_of(PsRunnerErrorView::EmptyScript(text)) == "script '"@ + text
            + "' has no content — ensure scripts are properly bundled or available in the scripts/ directory"@,
{
}

/// A credential in logs tells its user.
pub proof fn law_debug_text_tells_the_user(c: CredentialView)
    ensures
        redacted(c) == "VmCredential { username: "@ + text::debug_quoted(c.username)
            + ", password: \"[REDACTED]\" }"@,
{
}

/// A process that ended by itself gives its own exit code, or -1 where it has none, and all
/// that it wrote; it counts as a success exactly when the exit code is zero.
pub proof fn law_exit_is_passed_on(job: JobView, paths: PathsView, exit: ExitView)
    requires
        !exit.timed_out,
    ensures
        run_step(job, paths, RunEventView::Exited(exit)) matches RunActionView::Finished(outcome)
            && outcome matches Ok(r) && {
            &&& exit.code matches Some(c) ==> r.exit_code == c
            &&& exit.code is None ==> r.exit_code == -1
            &&& r.stdout == lossy_text(exit.stdout)
            &&& r.stderr == lossy_text(exit.stderr)
            &&& r.duration == exit.duration
            &&& succeeded(outcome) <==> exit.code == Some(0i32)
        },
{
}

/// A process that was killed after its time gives a timeout with the time that the job
/// allowed, whatever exit code and output it has.
pub proof fn law_timeout_is_reported(job: JobView, paths: PathsView, exit: ExitView)
    requires
        exit.timed_out,
    ensures
        run_step(job, paths, RunEventView::Exited(exit)) == RunActionView::Finished(
            Err(PsRunnerErrorView::Timeout(job.timeout)),
        ),
        !succeeded(Err(PsRunnerErrorView::Timeout(job.timeout))),
{
}

/// A script succeeded exactly when it ran to its end with exit code zero.
pub proof fn law_success_is_exit_code_zero(r: ScriptResultView, e: PsRunnerErrorView)
    ensures
        succeeded(Ok(r)) <==> r.exit_code == 0,
        !succeeded(Err(e)),
{
}

/// A script that is not there is reported by its name, and a process that cannot be started by
/// the reason.
pub proof fn law_run_that_cannot_start_is_reported(
    job: JobView,
    paths: PathsView,
    message: Seq<char>,
)
    ensures
        run_step(job, paths, RunEventView::Located(false)) == RunActionView::Finished(
            Err(PsRunnerErrorView::ScriptNotFound(job.name)),
        ),
        run_step(job, paths, RunEventView::Failed(message)) == RunActionView::Finished(
            Err(PsRunnerErrorView::Io(message)),
        ),
{
}

/// A script without a credential that need not be elevated is started as a file with its own
/// arguments; so is one that is to be elevated in a session with administrator rights. With a
/// credential the command is encoded instead, and hands the credential on.
pub proof fn law_script_is_started_with_its_arguments(
    job: JobView,
    paths: PathsView,
    answer: Option<Seq<u8>>,
)
    requires
        !job.elevated || is_admin(answer),
    ensures
        !job.elevated ==> run_step(job, paths, RunEventView::Located(true)) == run_step(
            job,
            paths,
            RunEventView::AdminProbe(answer),
        ),
        job.elevated ==> run_step(job, paths, RunEventView::Located(true)) is ProbeAdmin,
        run_step(job, paths, RunEventView::AdminProbe(answer)) matches RunActionView::Spawn(args)
            && {
            &&& job.credential is None ==> {
                &&& args.len() == 4 + job.args.len()
                &&& args[0] == "-ExecutionPolicy"@
                &&& args[1] == "Bypass"@
                &&& args[2] == "-File"@
                &&& args[3] == paths.script
                &&& args.skip(4) == job.args
            }
            &&& job.credential matches Some(c) ==> {
                &&& args.len() == 5
                &&& args[3] == "-EncodedCommand"@
                &&& encoding::utf16_decoded(encoding::base64_decoded(args[4]))
                    == command::credential_command(paths.script, job.args, c)
            }
        },
{
    let args = launch_args(job, paths, false);
    match job.credential {
        Some(c) => {
            encoding::law_encoded_command_decodes(
                command::credential_command(paths.script, job.args, c),
            );
        },
        None => {
            assert(args.skip(4) =~= job.args);
        },
    }
}

/// A script that is to be elevated goes through an elevated session when the session has no
/// administrator rights, with its arguments and its credential, and its output goes to the two
/// files.
pub proof fn law_script_is_elevated_without_rights(
    job: JobView,
    paths: PathsView,
    answer: Option<Seq<u8>>,
)
    requires
        job.elevated,
        !is_admin(answer),
    ensures
        run_step(job, paths, RunEventView::AdminProbe(answer)) matches RunActionView::Spawn(args)
            && {
            &&& args.len() == 5
            &&& args[3] == "-EncodedCommand"@
            &&& encoding::utf16_decoded(encoding::base64_decoded(args[4]))
                == command::elevated_command(
                paths.script,
                job.args,
                job.credential,
                paths.stdout_file,
                paths.stderr_file,
            )
        },
{
    encoding::law_encoded_command_decodes(
        command::elevated_command(
            paths.script,
            job.args,
            job.credential,
            paths.stdout_file,
            paths.stderr_file,
        ),
    );
}

/// Whether `word` is `true`, in any case of letters.
spec fn spells_true(word: Seq<char>) -> bool {
    &&& word.len() == 4
    &&& word[0] == 't' || word[0] == 'T'
    &&& word[1] == 'r' || word[1] == 'R'
    &&& word[2] == 'u' || word[2] == 'U'
    &&& word[3] == 'e' || word[3] == 'E'
}

/// The session has administrator rights exactly when the answer, without the white space around
/// it, is the word `true` in any case of letters; without an answer it has none.
pub proof fn law_only_true_gives_rights(bytes: Seq<u8>)
    ensures
        !is_admin(None),
        is_admin(Some(bytes)) <==> ({
            let word = text::trim_of(lossy_text(bytes));
            &&& word.len() == 4
            &&& word[0] == 't' || word[0] == 'T'
            &&& word[1] == 'r' || word[1] == 'R'
            &&& word[2] == 'u' || word[2] == 'U'
            &&& word[3] == 'e' || word[3] == 'E'
        }),
{
    reveal_strlit("true");
    let word = text::trim_of(lossy_text(bytes));
    let target = "true"@;
    if spells_true(word) {
        assert forall|i: int| 0 <= i < word.len() implies text::lower_of(#[trigger] word[i])
            == text::lower_of(target[i]) by {
            if i == 0 {
            } else if i == 1 {
            } else if i == 2 {
            } else {
            }
        }
    }
    if text::equal_ignoring_case(word, target) {
        assert(text::lower_of(word[0]) == text::lower_of(target[0]));
        assert(text::lower_of(word[1]) == text::lower_of(target[1]));
        assert(text::lower_of(word[2]) == text::lower_of(target[2]));
        assert(text::lower_of(word[3]) == text::lower_of(target[3]));
    }
}

/// The session is asked for the role of an administrator, without the profile of the user.
pub proof fn law_rights_are_asked_for()
    ensures
        probe_args().len() == 3,
        probe_args()[0] == "-NoProfile"@,
        probe_args()[1] == "-Command"@,
        probe_args()[2]
            == "([Security.Principal.WindowsPrincipal] [Security.Principal.WindowsIdentity]::GetCurrent()).IsInRole([Security.Principal.WindowsBuiltInRole]::Administrator)"@,
        ELEVATED_STDOUT@ == "elevated_stdout.txt"@,
        ELEVATED_STDERR@ == "elevated_stderr.txt"@,
{
}

/// The watchdog kills a process exactly when its time is over and it has not ended, stops exactly
/// when it has ended, and looks again after a tenth of a second otherwise.
pub proof fn law_watchdog_kills_after_the_timeout(elapsed: nat, timeout: nat, cancelled: bool)
    ensures
        watch(elapsed, timeout, cancelled) is Stop <==> cancelled,
        watch(elapsed, timeout, cancelled) is Kill <==> !cancelled && timeout <= elapsed,
        watch(elapsed, timeout, cancelled) matches WatchdogView::Sleep(pause) ==> pause
            == 100_000_000,
{
}

// ---------------------------------------------------------------------------
// Laws of retries
// ---------------------------------------------------------------------------

/// While attempts remain, a script is tried again after every exit code other than zero and
/// after a timeout, and after nothing else.
pub proof fn law_failures_and_timeouts_are_retried(
    job: JobView,
    state: RetryView,
    r: ScriptResultView,
    e: PsRunnerErrorView,
)
    requires
        state.attempt < state.max_retries,
    ensures
        retry_step(job, state, RetryEventView::Attempted(Ok(r))).1 is Attempt <==> r.exit_code != 0,
        retry_step(job, state, RetryEventView::Attempted(Err(e))).1 is Attempt <==> e is Timeout,
{
}

/// After the last attempt allowed nothing is tried again.
pub proof fn law_last_attempt_is_the_last(job: JobView, state: RetryView, o: Outcome)
    requires
        state.attempt >= state.max_retries,
    ensures
        retry_step(job, state, RetryEventView::Attempted(o)).1 is Finished,
        retry_step(job, state, RetryEventView::Attempted(o)).0 == state,
{
}

/// What comes of the attempts is what came of the last of them: a result with exit code zero as
/// it is, any other exit code as an error with the code and the errors that were written, and
/// every error as it is.
pub proof fn law_attempts_end_with_the_last_outcome(
    job: JobView,
    state: RetryView,
    r: ScriptResultView,
    e: PsRunnerErrorView,
)
    ensures
        retry_step(job, state, RetryEventView::Attempted(Ok(r))).1 matches RetryStepView::Finished(o)
            ==> (r.exit_code == 0 ==> o == Ok::<ScriptResultView, PsRunnerErrorView>(r)) && (
        r.exit_code != 0 ==> o == Err::<ScriptResultView, PsRunnerErrorView>(
            PsRunnerErrorView::ScriptFailed { exit_code: r.exit_code, stderr: r.stderr },
        )),
        retry_step(job, state, RetryEventView::Attempted(Err(e))).1 matches RetryStepView::Finished(
            o,
        ) ==> o == Err::<ScriptResultView, PsRunnerErrorView>(e),
{
}

/// The first attempt comes at once. The next one comes after a second, and each wait is twice
/// the one before it, up to thirty seconds. Every attempt is counted, and the number allowed
/// stays.
pub proof fn law_waits_double(job: JobView, state: RetryView, o: Outcome)
    ensures
        ({
            let (begun, first) = retry_step(job, state, RetryEventView::Begin);
            &&& begun.attempt == 0 && begun.max_retries == state.max_retries
            &&& first matches RetryStepView::Attempt(wait, _) && wait == 0
        }),
        retry_step(job, state, RetryEventView::Attempted(o)).1 matches RetryStepView::Attempt(
            wait,
            _,
        ) ==> {
            let next = retry_step(job, state, RetryEventView::Attempted(o)).0;
            &&& next.attempt == state.attempt + 1
            &&& next.max_retries == state.max_retries
            &&& state.attempt == 0 ==> wait == 1_000_000_000
            &&& wait <= 30_000_000_000
            &&& next.attempt < next.max_retries ==> (retry_step(
                job,
                next,
                RetryEventView::Attempted(o),
            ).1 matches RetryStepView::Attempt(after, _) && after == (if 2 * wait
                < 30_000_000_000 {
                2 * wait
            } else {
                30_000_000_000
            }))
        },
{
    vstd::arithmetic::power2::lemma2_to64();
    vstd::arithmetic::power2::lemma_pow2_unfold((state.attempt + 1) as nat);
    vstd::arithmetic::power2::lemma_pow2_pos(state.attempt);
}

// ---------------------------------------------------------------------------
// Laws of scripts
// ---------------------------------------------------------------------------

/// There are three known scripts, all of them loaded at run time.
pub proof fn law_three_scripts_are_known()
    ensures
        known_scripts().len() == 3,
        known_scripts()[0].0 == "Install-DriverOnVM.ps1"@,
        known_scripts()[1].0 == "Verify-DriverOnVM.ps1"@,
        known_scripts()[2].0 == "Capture-DriverLogs.ps1"@,
        forall|i: int| 0 <= i < 3 ==> (#[trigger] known_scripts()[i]).1.len() == 0,
{
    reveal_strlit("");
}

/// A script is looked for next to the executable first, then in the working directory, then in
/// the source tree, and last in the directory that `cargo run` names.
pub proof fn law_places_are_tried_in_order(
    exe_dir: Seq<char>,
    name: Seq<char>,
    manifest_dir: Option<Seq<char>>,
)
    ensures
        ({
            let places = candidates_of(exe_dir, name, manifest_dir);
            &&& places[0] == seq![exe_dir, "scripts"@, name]
            &&& places[1] == seq!["scripts"@, name]
            &&& places[2] == seq!["tools/driver-test-cli-v2/scripts"@, name]
            &&& manifest_dir is None ==> places.len() == 3
            &&& manifest_dir matches Some(dir) ==> places.len() == 4 && places[3] == seq![
                dir,
                "scripts"@,
                name,
            ]
        }),
{
}

/// What stands at the first place at which anything stands is taken: its text, or the reason why
/// it cannot be read. Where nothing stands anywhere, the script is reported as not found.
pub proof fn law_loading_takes_the_first_place(name: Seq<char>, probes: Seq<ProbeView>)
    ensures
        forall|k: int|
            0 <= k < probes.len() && (forall|i: int| 0 <= i < k ==> probes[i] is Absent) ==> {
                &&& (#[trigger] probes[k]) matches ProbeView::Content(content) ==> first_found(
                    name,
                    probes,
                ) == Ok::<Seq<char>, PsRunnerErrorView>(content)
                &&& probes[k] matches ProbeView::Unreadable(message) ==> first_found(name, probes)
                    == Err::<Seq<char>, PsRunnerErrorView>(PsRunnerErrorView::Io(message))
            },
        (forall|i: int| 0 <= i < probes.len() ==> (#[trigger] probes[i]) is Absent) ==> first_found(
            name,
            probes,
        ) == Err::<Seq<char>, PsRunnerErrorView>(PsRunnerErrorView::ScriptNotFound(name)),
    decreases probes.len(),
{
    if probes.len() > 0 && probes[0] is Absent {
        let rest = probes.drop_first();
        law_loading_takes_the_first_place(name, rest);
        assert forall|k: int|
            0 <= k < probes.len() && (forall|i: int| 0 <= i < k ==> probes[i] is Absent) implies {
            &&& (#[trigger] probes[k]) matches ProbeView::Content(content) ==> first_found(
                name,
                probes,
            ) == Ok::<Seq<char>, PsRunnerErrorView>(content)
            &&& probes[k] matches ProbeView::Unreadable(message) ==> first_found(name, probes)
                == Err::<Seq<char>, PsRunnerErrorView>(PsRunnerErrorView::Io(message))
        } by {
            if k > 0 {
                assert(rest[k - 1] == probes[k]);
                assert forall|i: int| 0 <= i < k - 1 implies rest[i] is Absent by {
                    assert(probes[i + 1] is Absent);
                }
            }
        }
        if forall|i: int| 0 <= i < probes.len() ==> (#[trigger] probes[i]) is Absent {
            assert forall|i: int| 0 <= i < rest.len() implies (#[trigger] rest[i]) is Absent by {
                assert(probes[i + 1] is Absent);
            }
        }
    } else if probes.len() > 0 {
        assert forall|k: int|
            0 <= k < probes.len() && (forall|i: int| 0 <= i < k ==> probes[i] is Absent) implies {
            &&& (#[trigger] probes[k]) matches ProbeView::Content(content) ==> first_found(
                name,
                probes,
            ) == Ok::<Seq<char>, PsRunnerErrorView>(content)
            &&& probes[k] matches ProbeView::Unreadable(message) ==> first_found(name, probes)
                == Err::<Seq<char>, PsRunnerErrorView>(PsRunnerErrorView::Io(message))
        } by {
            if k > 0 {
                assert(probes[0] is Absent);
            }
        }
    }
}

/// A script has its embedded text, or where that is empty the text that was loaded; one with
/// neither is reported by its name.
pub proof fn law_embedded_text_comes_first(
    name: Seq<char>,
    embedded: Seq<char>,
    loaded: Option<Seq<char>>,
)
    ensures
        ({
            let r = resolved_script(name, embedded, loaded);
            &&& embedded.len() > 0 ==> r == Ok::<Seq<char>, PsRunnerErrorView>(embedded)
            &&& embedded.len() == 0 && loaded is Some && loaded->0.len() > 0 ==> r == Ok::<
                Seq<char>,
                PsRunnerErrorView,
            >(loaded->0)
            &&& embedded.len() == 0 && (loaded is None || loaded->0.len() == 0) ==> r == Err::<
                Seq<char>,
                PsRunnerErrorView,
            >(PsRunnerErrorView::EmptyScript(name))
        }),
{
}

/// The files of a runner hold for every script, when no name occurs twice, the text that the
/// script has by itself: the embedded one, or where that is empty the loaded one. The files are
/// there exactly when every script has a text.
pub proof fn law_files_hold_the_texts(embedded: Pairs, loaded: Pairs)
    requires
        details::distinct_keys(embedded),
    ensures
        resolved_scripts(embedded, loaded) is Ok <==> (forall|i: int|
            0 <= i < embedded.len() ==> (#[trigger] embedded[i]).1.len() > 0 || (details::lookup(
                loaded,
                embedded[i].0,
            ) matches Some(text) && text.len() > 0)),
        resolved_scripts(embedded, loaded) matches Ok(files) ==> forall|i: int|
            0 <= i < embedded.len() ==> details::lookup(files, (#[trigger] embedded[i]).0) == Some(
                if embedded[i].1.len() > 0 {
                    embedded[i].1
                } else {
                    details::lookup(loaded, embedded[i].0)->0
                },
            ),
        resolved_scripts(embedded, loaded) matches Err(e) ==> e is EmptyScript,
    decreases embedded.len(),
{
    if embedded.len() > 0 {
        let fewer = embedded.drop_last();
        assert(details::distinct_keys(fewer)) by {
            assert forall|i: int, j: int| 0 <= i < j < fewer.len() implies (#[trigger] fewer[i]).0
                != (#[trigger] fewer[j]).0 by {
                assert(fewer[i] == embedded[i] && fewer[j] == embedded[j]);
            }
        }
        law_files_hold_the_texts(fewer, loaded);
        let n = embedded.len() - 1;
        let (name, content) = embedded.last();
        assert(embedded[n] == embedded.last());
        assert forall|i: int| 0 <= i < n implies #[trigger] fewer[i] == embedded[i] by {}
        assert forall|i: int| 0 <= i < n implies fewer[i] == #[trigger] embedded[i] by {}
        if resolved_scripts(embedded, loaded) is Ok {
            let before = resolved_scripts(fewer, loaded)->Ok_0;
            let text = resolved_script(name, content, details::lookup(loaded, name))->Ok_0;
            assert forall|i: int| 0 <= i < embedded.len() implies details::lookup(
                details::updated(before, name, text),
                (#[trigger] embedded[i]).0,
            ) == Some(
                if embedded[i].1.len() > 0 {
                    embedded[i].1
                } else {
                    details::lookup(loaded, embedded[i].0)->0
                },
            ) by {
                details::law_lookup_after_update(before, name, text, embedded[i].0);
                if i < n {
                    assert(fewer[i] == embedded[i]);
                    assert(embedded[i].0 != embedded[n].0);
                }
            }
        }
    }
}

/// As many retries are allowed as were asked for: a script that fails every time is tried once
/// more than that, and then its last failure counts.
pub proof fn law_retries_are_counted(job: JobView, max_retries: nat, outcomes: Seq<Outcome>)
    requires
        outcomes.len() == max_retries + 1,
        forall|i: int|
            0 <= i < outcomes.len() ==> ((#[trigger] outcomes[i]) matches Ok(r) && r.exit_code
                != 0),
    ensures
        first_attempt(max_retries).attempt == 0,
        retry_run(job, first_attempt(max_retries), outcomes) == Some(
            Err::<ScriptResultView, PsRunnerErrorView>(
                PsRunnerErrorView::ScriptFailed {
                    exit_code: outcomes.last()->Ok_0.exit_code,
                    stderr: outcomes.last()->Ok_0.stderr,
                },
            ),
        ),
        retry_run(job, first_attempt(max_retries), outcomes.drop_last()) is None,
{
    assert(outcomes[max_retries as int] matches Ok(r) && r.exit_code != 0);
    assert forall|i: int| 0 <= i < max_retries implies is_transient(#[trigger] outcomes[i]) by {}
    law_first_decisive_attempt_counts(
        job,
        first_attempt(max_retries),
        outcomes,
        max_retries as int,
    );
    lemma_too_few_attempts(job, first_attempt(max_retries), outcomes.drop_last());
}

proof fn lemma_too_few_attempts(job: JobView, state: RetryView, outcomes: Seq<Outcome>)
    requires
        state.attempt + outcomes.len() <= state.max_retries,
        forall|i: int|
            0 <= i < outcomes.len() ==> ((#[trigger] outcomes[i]) matches Ok(r) && r.exit_code
                != 0),
    ensures
        retry_run(job, state, outcomes) is None,
    decreases outcomes.len(),
{
    if outcomes.len() > 0 {
        assert(outcomes[0] matches Ok(r) && r.exit_code != 0);
        let rest = outcomes.drop_first();
        assert forall|i: int| 0 <= i < rest.len() implies ((#[trigger] rest[i]) matches Ok(r)
            && r.exit_code != 0) by {
            assert(rest[i] == outcomes[i + 1]);
        }
        let next = retry_step(job, state, RetryEventView::Attempted(outcomes[0])).0;
        lemma_too_few_attempts(job, next, rest);
    }
}

/// The first script without a text is the one that is reported.
pub proof fn law_first_empty_script_is_reported(embedded: Pairs, loaded: Pairs, k: int)
    requires
        0 <= k < embedded.len(),
        forall|i: int|
            0 <= i < k ==> (#[trigger] embedded[i]).1.len() > 0 || (details::lookup(
                loaded,
                embedded[i].0,
            ) matches Some(text) && text.len() > 0),
        embedded[k].1.len() == 0,
        !(details::lookup(loaded, embedded[k].0) matches Some(text) && text.len() > 0),
    ensures
        resolved_scripts(embedded, loaded) == Err::<Pairs, PsRunnerErrorView>(
            PsRunnerErrorView::EmptyScript(embedded[k].0),
        ),
{
    let upto = embedded.take(k);
    assert forall|i: int| 0 <= i < upto.len() implies (#[trigger] upto[i]).1.len() > 0 || (
    details::lookup(loaded, upto[i].0) matches Some(text) && text.len() > 0) by {
        assert(upto[i] == embedded[i]);
    }
    lemma_all_have_texts(upto, loaded);
    assert(embedded.take(k + 1).drop_last() =~= upto);
    assert(embedded.take(k + 1).last() == embedded[k]);
    lemma_resolution_stops(embedded, loaded, k + 1);
}

proof fn lemma_all_have_texts(embedded: Pairs, loaded: Pairs)
    requires
        forall|i: int|
            0 <= i < embedded.len() ==> (#[trigger] embedded[i]).1.len() > 0 || (details::lookup(
                loaded,
                embedded[i].0,
            ) matches Some(text) && text.len() > 0),
    ensures
        resolved_scripts(embedded, loaded) is Ok,
    decreases embedded.len(),
{
    if embedded.len() > 0 {
        let fewer = embedded.drop_last();
        assert forall|i: int| 0 <= i < fewer.len() implies (#[trigger] fewer[i]).1.len() > 0 || (
        details::lookup(loaded, fewer[i].0) matches Some(text) && text.len() > 0) by {
            assert(fewer[i] == embedded[i]);
        }
        lemma_all_have_texts(fewer, loaded);
        assert(embedded[embedded.len() - 1] == embedded.last());
    }
}

} // verus!
