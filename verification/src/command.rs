//! Command lines for `powershell.exe`: the direct form, the form that hands a credential to
//! a script, and the form that runs a script in an elevated session.

use vstd::prelude::*;

use crate::encoding::{self, encode_powershell_command};
use crate::ps_runner::{self, CredentialView, VmCredential};
use crate::text::{self, copy_strings, join, labelled, replace_char, starts_with_char};

verus! {

// ---------------------------------------------------------------------------
// Quoting
// ---------------------------------------------------------------------------

/// `s` as it stands between single quotes: every single quote twice.
pub open spec fn doubled(s: Seq<char>) -> Seq<char> {
    text::replace_char_of(s, '\'', "''"@)
}

/// An argument of a script in a command: a parameter name, which starts with `-`, as it
/// is, a value in single quotes.
pub open spec fn quoted_arg(a: Seq<char>) -> Seq<char> {
    if a.len() > 0 && a[0] == '-' {
        a
    } else {
        "'"@ + doubled(a) + "'"@
    }
}

/// The arguments of a script in a command.
pub open spec fn quoted_args(args: Seq<Seq<char>>) -> Seq<char> {
    text::join_of(args.map_values(|a: Seq<char>| quoted_arg(a)), " "@)
}

/// The argument `a` in a command.
pub fn quote_arg(a: &str) -> (text: String)
    ensures
        text@ == quoted_arg(a@),
{
    if starts_with_char(a, '-') {
        a.to_owned()
    } else {
        let mut text = labelled("'", &replace_char(a, '\'', "''"));
        text.append("'");
        text
    }
}

/// The arguments `args` in a command.
pub fn quote_args(args: &Vec<String>) -> (text: String)
    ensures
        text@ == quoted_args(text::texts(args@)),
{
    let mut parts: Vec<String> = Vec::new();
    let mut i: usize = 0;
    while i < args.len()
        invariant
            i <= args@.len(),
            text::texts(parts@) == text::texts(args@).take(i as int).map_values(
                |a: Seq<char>| quoted_arg(a),
            ),
        decreases args@.len() - i,
    {
        let ghost before = parts@;
        parts.push(quote_arg(args[i].as_str()));
        assert(text::texts(parts@) =~= text::texts(before).push(quoted_arg(args@[i as int]@)));
        assert(text::texts(args@).take(i + 1) =~= text::texts(args@).take(i as int).push(
            args@[i as int]@,
        ));
        i = i + 1;
    }
    assert(text::texts(args@).take(args@.len() as int) =~= text::texts(args@));
    join(&parts, " ")
}

// ---------------------------------------------------------------------------
// Direct
// ---------------------------------------------------------------------------

/// The arguments of `powershell.exe` that run the script at `script` with `args`.
pub open spec fn direct_args(script: Seq<char>, args: Seq<Seq<char>>) -> Seq<Seq<char>> {
    seq!["-ExecutionPolicy"@, "Bypass"@, "-File"@, script] + args
}

/// The arguments of `powershell.exe` that run the script at `script` with `args`.
pub fn spawn_direct(script: &str, args: &Vec<String>) -> (line: Vec<String>)
    ensures
        text::texts(line@) == direct_args(script@, text::texts(args@)),
{
    let mut line: Vec<String> = Vec::new();
    line.push("-ExecutionPolicy".to_owned());
    line.push("Bypass".to_owned());
    line.push("-File".to_owned());
    line.push(script.to_owned());
    let mut rest = copy_strings(args);
    line.append(&mut rest);
    assert(text::texts(line@) =~= direct_args(script@, text::texts(args@)));
    line
}

// ---------------------------------------------------------------------------
// With a credential
// ---------------------------------------------------------------------------

/// The call of a script in a command: the script by its path, with `args`, and with a
/// `PSCredential` that is built for it where there is a credential.
pub open spec fn script_call(
    script: Seq<char>,
    args: Seq<Seq<char>>,
    credential: Option<CredentialView>,
) -> Seq<char> {
    match credential {
        Some(c) => "$secPass = ConvertTo-SecureString '"@ + doubled(c.password)
            + "' -AsPlainText -Force; $cred = New-Object System.Management.Automation.PSCredential('"@
            + doubled(c.username) + "',$secPass); & '"@ + doubled(script) + "' "@ + quoted_args(
            args,
        ) + " -Credential $cred"@,
        None => "& '"@ + doubled(script) + "' "@ + quoted_args(args),
    }
}

/// The command that hands a credential to the script at `script` and passes its exit code
/// on.
pub open spec fn credential_command(
    script: Seq<char>,
    args: Seq<Seq<char>>,
    c: CredentialView,
) -> Seq<char> {
    script_call(script, args, Some(c)) + "; exit $LASTEXITCODE"@
}

/// The arguments of `powershell.exe` that run the command `command`.
pub open spec fn encoded_args(command: Seq<char>) -> Seq<Seq<char>> {
    seq![
        "-NoProfile"@,
        "-ExecutionPolicy"@,
        "Bypass"@,
        "-EncodedCommand"@,
        encoding::encoded_command_of(command),
    ]
}

fn double(s: &str) -> (text: String)
    ensures
        text@ == doubled(s@),
{
    replace_char(s, '\'', "''")
}

fn write_credential_call(script: &str, args: &Vec<String>, c: &VmCredential) -> (text: String)
    ensures
        text@ == script_call(script@, text::texts(args@), Some(c@)),
{
    let mut text = labelled(
        "$secPass = ConvertTo-SecureString '",
        &double(c.password.as_str()),
    );
    text.append(
        "' -AsPlainText -Force; $cred = New-Object System.Management.Automation.PSCredential('",
    );
    text.append(double(c.username.as_str()).as_str());
    text.append("',$secPass); & '");
    text.append(double(script).as_str());
    text.append("' ");
    text.append(quote_args(args).as_str());
    text.append(" -Credential $cred");
    text
}

fn write_script_call(
    script: &str,
    args: &Vec<String>,
    credential: &Option<VmCredential>,
) -> (text: String)
    ensures
        text@ == script_call(script@, text::texts(args@), ps_runner::opt_credential(*credential)),
{
    match credential {
        Some(c) => write_credential_call(script, args, c),
        None => {
            let mut text = labelled("& '", &double(script));
            text.append("' ");
            text.append(quote_args(args).as_str());
            text
        },
    }
}

fn encoded_line(command: &String) -> (line: Vec<String>)
    ensures
        text::texts(line@) == encoded_args(command@),
{
    let mut line: Vec<String> = Vec::new();
    line.push("-NoProfile".to_owned());
    line.push("-ExecutionPolicy".to_owned());
    line.push("Bypass".to_owned());
    line.push("-EncodedCommand".to_owned());
    line.push(encode_powershell_command(command.as_str()));
    assert(text::texts(line@) =~= encoded_args(command@));
    line
}

/// The arguments of `powershell.exe` that run the script at `script` with `args` and hand it
/// `credential`.
pub fn spawn_with_credential(script: &str, args: &Vec<String>, credential: &VmCredential) -> (line:
    Vec<String>)
    ensures
        text::texts(line@) == encoded_args(
            credential_command(script@, text::texts(args@), credential@),
        ),
{
    let mut command = write_credential_call(script, args, credential);
    command.append("; exit $LASTEXITCODE");
    encoded_line(&command)
}

// ---------------------------------------------------------------------------
// Elevated
// ---------------------------------------------------------------------------

/// The script of the elevated session: it makes the call `call` and sends what the call
/// writes to the two files.
pub open spec fn inner_script(
    call: Seq<char>,
    stdout_file: Seq<char>,
    stderr_file: Seq<char>,
) -> Seq<char> {
    "$ErrorActionPreference = 'Stop'; try { "@ + call + " *> '"@ + doubled(stdout_file) + "' 2> '"@
        + doubled(stderr_file) + "' } catch { $_ | Out-File '"@ + doubled(stderr_file)
        + "' -Append; exit 1 }"@
}

/// The command of the session that is not elevated: it starts the elevated one with
/// `inner`, waits, and writes out what the two files hold.
pub open spec fn outer_command(
    inner: Seq<char>,
    stdout_file: Seq<char>,
    stderr_file: Seq<char>,
) -> Seq<char> {
    "$ErrorActionPreference = 'Stop'; $innerBytes = [System.Text.Encoding]::Unicode.GetBytes('"@
        + doubled(inner)
        + "'); $innerCmd = [Convert]::ToBase64String($innerBytes); $proc = Start-Process powershell.exe -Verb RunAs -ArgumentList '-NoProfile','-ExecutionPolicy','Bypass','-EncodedCommand',$innerCmd -Wait -PassThru -WindowStyle Hidden; if (Test-Path '"@
        + doubled(stdout_file) + "') { Get-Content '"@ + doubled(stdout_file)
        + "' -Raw }; if (Test-Path '"@ + doubled(stderr_file) + "') { Get-Content '"@ + doubled(
        stderr_file,
    ) + "' -Raw | Write-Error }; exit $proc.ExitCode"@
}

/// The command that runs the script at `script` with `args` in an elevated session.
pub open spec fn elevated_command(
    script: Seq<char>,
    args: Seq<Seq<char>>,
    credential: Option<CredentialView>,
    stdout_file: Seq<char>,
    stderr_file: Seq<char>,
) -> Seq<char> {
    outer_command(
        inner_script(script_call(script, args, credential), stdout_file, stderr_file),
        stdout_file,
        stderr_file,
    )
}

fn write_inner_script(call: &String, stdout_file: &str, stderr_file: &str) -> (text: String)
    ensures
        text@ == inner_script(call@, stdout_file@, stderr_file@),
{
    let mut text = labelled("$ErrorActionPreference = 'Stop'; try { ", call);
    text.append(" *> '");
    text.append(double(stdout_file).as_str());
    text.append("' 2> '");
    text.append(double(stderr_file).as_str());
    text.append("' } catch { $_ | Out-File '");
    text.append(double(stderr_file).as_str());
    text.append("' -Append; exit 1 }");
    text
}

fn write_outer_command(inner: &String, stdout_file: &str, stderr_file: &str) -> (text: String)
    ensures
        text@ == outer_command(inner@, stdout_file@, stderr_file@),
{
    let mut text = labelled(
        "$ErrorActionPreference = 'Stop'; $innerBytes = [System.Text.Encoding]::Unicode.GetBytes('",
        &double(inner.as_str()),
    );
    text.append(
        "'); $innerCmd = [Convert]::ToBase64String($innerBytes); $proc = Start-Process powershell.exe -Verb RunAs -ArgumentList '-NoProfile','-ExecutionPolicy','Bypass','-EncodedCommand',$innerCmd -Wait -PassThru -WindowStyle Hidden; if (Test-Path '",
    );
    text.append(double(stdout_file).as_str());
    text.append("') { Get-Content '");
    text.append(double(stdout_file).as_str());
    text.append("' -Raw }; if (Test-Path '");
    text.append(double(stderr_file).as_str());
    text.append("') { Get-Content '");
    text.append(double(stderr_file).as_str());
    text.append("' -Raw | Write-Error }; exit $proc.ExitCode");
    text
}

/// The arguments of `powershell.exe` that run the script at `script` with `args` in an
/// elevated session. `-Verb RunAs` cannot redirect what the script writes, so the
/// elevated session writes to `stdout_file` and `stderr_file`, which the outer one reads
/// back.
pub fn spawn_elevated(
    script: &str,
    args: &Vec<String>,
    credential: &Option<VmCredential>,
    stdout_file: &str,
    stderr_file: &str,
) -> (line: Vec<String>)
    ensures
        text::texts(line@) == encoded_args(
            elevated_command(
                script@,
                text::texts(args@),
                ps_runner::opt_credential(*credential),
                stdout_file@,
                stderr_file@,
            ),
        ),
{
    let call = write_script_call(script, args, credential);
    let inner = write_inner_script(&call, stdout_file, stderr_file);
    let command = write_outer_command(&inner, stdout_file, stderr_file);
    encoded_line(&command)
}

// ---------------------------------------------------------------------------
// Laws
// ---------------------------------------------------------------------------

/// What PowerShell reads between single quotes: two single quotes stand for one.
pub open spec fn undoubled(s: Seq<char>) -> Seq<char>
    decreases s.len(),
{
    if s.len() == 0 {
        s
    } else if s.len() >= 2 && s[0] == '\'' && s[1] == '\'' {
        seq!['\''] + undoubled(s.skip(2))
    } else {
        seq![s[0]] + undoubled(s.skip(1))
    }
}

/// `doubled`, from the front.
proof fn lemma_doubled_front(s: Seq<char>)
    requires
        s.len() > 0,
    ensures
        doubled(s) == (if s[0] == '\'' {
            seq!['\'', '\'']
        } else {
            seq![s[0]]
        }) + doubled(s.drop_first()),
    decreases s.len(),
{
    reveal_strlit("''");
    assert("''"@ =~= seq!['\'', '\'']);
    let head = if s[0] == '\'' {
        seq!['\'', '\'']
    } else {
        seq![s[0]]
    };
    if s.len() == 1 {
        reveal_with_fuel(text::replace_char_of, 2);
        assert(s.drop_last() =~= Seq::<char>::empty());
        assert(s.drop_first() =~= Seq::<char>::empty());
        assert(doubled(s) =~= head + doubled(s.drop_first()));
    } else {
        lemma_doubled_front(s.drop_last());
        assert(s.drop_last().drop_first() =~= s.drop_first().drop_last());
        assert(doubled(s) =~= head + doubled(s.drop_first()));
    }
}

/// PowerShell reads a doubled text back as the text: no value ends its quotes early.
pub proof fn law_doubling_is_undone(s: Seq<char>)
    ensures
        undoubled(doubled(s)) == s,
    decreases s.len(),
{
    if s.len() == 0 {
        assert(undoubled(doubled(s)) =~= s);
    } else {
        lemma_doubled_front(s);
        law_doubling_is_undone(s.drop_first());
        let d = doubled(s);
        if s[0] == '\'' {
            assert(d.skip(2) =~= doubled(s.drop_first()));
        } else {
            assert(d.skip(1) =~= doubled(s.drop_first()));
        }
        assert(undoubled(d) =~= s);
    }
}

/// What PowerShell reads after an opening single quote: the text of the literal, and what
/// follows its closing quote; `None` when the literal does not end.
pub open spec fn literal(s: Seq<char>) -> Option<(Seq<char>, Seq<char>)>
    decreases s.len(),
{
    if s.len() == 0 {
        None
    } else if s[0] != '\'' {
        match literal(s.skip(1)) {
            Some((text, rest)) => Some((seq![s[0]] + text, rest)),
            None => None,
        }
    } else if s.len() >= 2 && s[1] == '\'' {
        match literal(s.skip(2)) {
            Some((text, rest)) => Some((seq!['\''] + text, rest)),
            None => None,
        }
    } else {
        Some((Seq::empty(), s.skip(1)))
    }
}

/// A doubled text between single quotes is one literal that stands for the text, and ends
/// where its quotes end.
pub proof fn law_literal_stands_for_its_text(s: Seq<char>, rest: Seq<char>)
    requires
        rest.len() == 0 || rest[0] != '\'',
    ensures
        literal(doubled(s) + seq!['\''] + rest) == Some((s, rest)),
    decreases s.len(),
{
    let whole = doubled(s) + seq!['\''] + rest;
    if s.len() == 0 {
        assert(whole =~= seq!['\''] + rest);
        assert(whole.skip(1) =~= rest);
        assert(s =~= Seq::empty());
    } else {
        lemma_doubled_front(s);
        law_literal_stands_for_its_text(s.drop_first(), rest);
        let tail = doubled(s.drop_first()) + seq!['\''] + rest;
        if s[0] == '\'' {
            assert(whole.skip(2) =~= tail);
        } else {
            assert(whole.skip(1) =~= tail);
        }
        assert(seq![s[0]] + s.drop_first() =~= s);
    }
}

/// Whether `part` stands somewhere in `s`.
pub open spec fn holds(s: Seq<char>, part: Seq<char>) -> bool {
    exists|before: Seq<char>, after: Seq<char>| s == #[trigger] (before + part + after)
}

/// The elevated shell is given `inner_script` as it is, for that is what the literal in the
/// outer command stands for; and this text holds the arguments of the script with parameter
/// names unquoted and values in single quotes.
pub proof fn law_elevated_shell_gets_the_arguments(
    script: Seq<char>,
    args: Seq<Seq<char>>,
    credential: Option<CredentialView>,
    stdout_file: Seq<char>,
    stderr_file: Seq<char>,
)
    ensures
        ({
            let start =
                "$ErrorActionPreference = 'Stop'; $innerBytes = [System.Text.Encoding]::Unicode.GetBytes('"@;
            let command = elevated_command(script, args, credential, stdout_file, stderr_file);
            let inner = inner_script(
                script_call(script, args, credential),
                stdout_file,
                stderr_file,
            );
            &&& start.is_prefix_of(command)
            &&& literal(command.skip(start.len() as int)) matches Some((text, _)) && text == inner
            &&& holds(inner, quoted_args(args))
        }),
{
    let start =
        "$ErrorActionPreference = 'Stop'; $innerBytes = [System.Text.Encoding]::Unicode.GetBytes('"@;
    let command = elevated_command(script, args, credential, stdout_file, stderr_file);
    let call = script_call(script, args, credential);
    let inner = inner_script(call, stdout_file, stderr_file);
    let next =
        "'); $innerCmd = [Convert]::ToBase64String($innerBytes); $proc = Start-Process powershell.exe -Verb RunAs -ArgumentList '-NoProfile','-ExecutionPolicy','Bypass','-EncodedCommand',$innerCmd -Wait -PassThru -WindowStyle Hidden; if (Test-Path '"@;
    lemma_next_starts_with_a_bracket();
    let end = doubled(stdout_file) + "') { Get-Content '"@ + doubled(stdout_file)
        + "' -Raw }; if (Test-Path '"@ + doubled(stderr_file) + "') { Get-Content '"@ + doubled(
        stderr_file,
    ) + "' -Raw | Write-Error }; exit $proc.ExitCode"@;
    assert(command =~= start + (doubled(inner) + (next + end)));
    assert(start =~= command.subrange(0, start.len() as int));
    let rest = (next + end).skip(1);
    assert(next + end =~= seq!['\''] + rest);
    assert(command.skip(start.len() as int) =~= doubled(inner) + seq!['\''] + rest);
    law_literal_stands_for_its_text(inner, rest);
    lemma_call_holds_arguments(script, args, credential);
    let (before, after) = choose|before: Seq<char>, after: Seq<char>|
        call == #[trigger] (before + quoted_args(args) + after);
    let head = "$ErrorActionPreference = 'Stop'; try { "@;
    let tail = " *> '"@ + doubled(stdout_file) + "' 2> '"@ + doubled(stderr_file)
        + "' } catch { $_ | Out-File '"@ + doubled(stderr_file) + "' -Append; exit 1 }"@;
    assert(inner =~= (head + before) + quoted_args(args) + (after + tail));
}

proof fn lemma_next_starts_with_a_bracket()
    ensures
        ({
            let next =
                "'); $innerCmd = [Convert]::ToBase64String($innerBytes); $proc = Start-Process powershell.exe -Verb RunAs -ArgumentList '-NoProfile','-ExecutionPolicy','Bypass','-EncodedCommand',$innerCmd -Wait -PassThru -WindowStyle Hidden; if (Test-Path '"@;
            &&& next.len() > 1
            &&& next[0] == '\''
            &&& next[1] == ')'
        }),
{
    reveal_strlit(
        "'); $innerCmd = [Convert]::ToBase64String($innerBytes); $proc = Start-Process powershell.exe -Verb RunAs -ArgumentList '-NoProfile','-ExecutionPolicy','Bypass','-EncodedCommand',$innerCmd -Wait -PassThru -WindowStyle Hidden; if (Test-Path '",
    );
}

proof fn lemma_call_holds_arguments(
    script: Seq<char>,
    args: Seq<Seq<char>>,
    credential: Option<CredentialView>,
)
    ensures
        holds(script_call(script, args, credential), quoted_args(args)),
{
    let call = script_call(script, args, credential);
    match credential {
        Some(c) => {
            let before = "$secPass = ConvertTo-SecureString '"@ + doubled(c.password)
                + "' -AsPlainText -Force; $cred = New-Object System.Management.Automation.PSCredential('"@
                + doubled(c.username) + "',$secPass); & '"@ + doubled(script) + "' "@;
            assert(call =~= before + quoted_args(args) + " -Credential $cred"@);
        },
        None => {
            let before = "& '"@ + doubled(script) + "' "@;
            assert(call =~= before + quoted_args(args) + Seq::empty());
        },
    }
}

/// In the credential form PowerShell reads back the password, the user and the path of the
/// script, each from a literal of its own, and hands the script its arguments and the
/// credential.
pub proof fn law_credential_reaches_the_script(
    script: Seq<char>,
    args: Seq<Seq<char>>,
    c: CredentialView,
)
    ensures
        ({
            let after_password =
                " -AsPlainText -Force; $cred = New-Object System.Management.Automation.PSCredential('"@;
            let after_user = ",$secPass); & '"@;
            let last = " "@ + quoted_args(args) + " -Credential $cred"@ + "; exit $LASTEXITCODE"@;
            let call = doubled(script) + seq!['\''] + last;
            let user = doubled(c.username) + seq!['\''] + (after_user + call);
            let password = doubled(c.password) + seq!['\''] + (after_password + user);
            &&& credential_command(script, args, c) == "$secPass = ConvertTo-SecureString '"@
                + password
            &&& literal(password) == Some((c.password, after_password + user))
            &&& literal(user) == Some((c.username, after_user + call))
            &&& literal(call) == Some((script, last))
        }),
{
    reveal_strlit(
        " -AsPlainText -Force; $cred = New-Object System.Management.Automation.PSCredential('",
    );
    reveal_strlit(
        "' -AsPlainText -Force; $cred = New-Object System.Management.Automation.PSCredential('",
    );
    reveal_strlit(",$secPass); & '");
    reveal_strlit("',$secPass); & '");
    reveal_strlit(" ");
    reveal_strlit("' ");
    let after_password =
        " -AsPlainText -Force; $cred = New-Object System.Management.Automation.PSCredential('"@;
    let after_user = ",$secPass); & '"@;
    assert("' -AsPlainText -Force; $cred = New-Object System.Management.Automation.PSCredential('"@
        =~= seq!['\''] + after_password);
    assert("',$secPass); & '"@ =~= seq!['\''] + after_user);
    assert("' "@ =~= seq!['\''] + " "@);
    let last = " "@ + quoted_args(args) + " -Credential $cred"@ + "; exit $LASTEXITCODE"@;
    let call = doubled(script) + seq!['\''] + last;
    let user = doubled(c.username) + seq!['\''] + (after_user + call);
    let password = doubled(c.password) + seq!['\''] + (after_password + user);
    assert(credential_command(script, args, c) =~= "$secPass = ConvertTo-SecureString '"@
        + password);
    law_literal_stands_for_its_text(c.password, after_password + user);
    law_literal_stands_for_its_text(c.username, after_user + call);
    law_literal_stands_for_its_text(script, last);
}

/// A parameter name passes unchanged; of a value PowerShell reads back the value.
pub proof fn law_quoted_arg_reads_back(a: Seq<char>)
    ensures
        a.len() > 0 && a[0] == '-' ==> quoted_arg(a) == a,
        !(a.len() > 0 && a[0] == '-') ==> {
            let q = quoted_arg(a);
            &&& q.len() >= 2
            &&& q[0] == '\''
            &&& q[q.len() - 1] == '\''
            &&& undoubled(q.subrange(1, q.len() - 1)) == a
        },
{
    reveal_strlit("'");
    law_doubling_is_undone(a);
    let q = quoted_arg(a);
    if !(a.len() > 0 && a[0] == '-') {
        assert(q.subrange(1, q.len() - 1) =~= doubled(a));
    }
}

/// What PowerShell decodes from the last argument is the command.
pub proof fn law_encoded_args_carry_the_command(command: Seq<char>)
    ensures
        encoding::utf16_decoded(encoding::base64_decoded(encoded_args(command).last())) == command,
{
    encoding::law_encoded_command_decodes(command);
}

/// A script that is started as a file gets its path and its arguments as they are.
pub proof fn law_direct_start_passes_the_arguments(script: Seq<char>, args: Seq<Seq<char>>)
    ensures
        ({
            let line = direct_args(script, args);
            &&& line.len() == args.len() + 4
            &&& line[0] == "-ExecutionPolicy"@
            &&& line[1] == "Bypass"@
            &&& line[2] == "-File"@
            &&& line[3] == script
            &&& forall|i: int| 0 <= i < args.len() ==> line[i + 4] == #[trigger] args[i]
        }),
{
}

/// A command is handed over encoded, without the profile of the user and past the execution
/// policy.
pub proof fn law_encoded_start_has_its_switches(command: Seq<char>)
    ensures
        ({
            let line = encoded_args(command);
            &&& line.len() == 5
            &&& line[0] == "-NoProfile"@
            &&& line[1] == "-ExecutionPolicy"@
            &&& line[2] == "Bypass"@
            &&& line[3] == "-EncodedCommand"@
        }),
{
}

/// The arguments of a script stand in a command in order, parted by blanks: one argument more
/// comes behind the others.
pub proof fn law_arguments_stand_in_order(args: Seq<Seq<char>>, a: Seq<char>)
    ensures
        quoted_args(Seq::empty()).len() == 0,
        quoted_args(seq![a]) == quoted_arg(a),
        args.len() > 0 ==> quoted_args(args.push(a)) == quoted_args(args) + " "@ + quoted_arg(a),
{
    let quote = |x: Seq<char>| quoted_arg(x);
    assert(Seq::<Seq<char>>::empty().map_values(quote) =~= Seq::empty());
    assert(seq![a].map_values(quote) =~= seq![quoted_arg(a)]);
    assert(args.push(a).map_values(quote) =~= args.map_values(quote).push(quoted_arg(a)));
    text::law_joining_separates_neighbours(args.map_values(quote), quoted_arg(a), " "@);
}

/// A script is called by its path and with its arguments; with a credential the call hands it
/// over, behind the arguments.
pub proof fn law_call_names_the_script(
    script: Seq<char>,
    args: Seq<Seq<char>>,
    c: CredentialView,
)
    ensures
        script_call(script, args, None) == "& '"@ + doubled(script) + "' "@ + quoted_args(args),
        ({
            let call = "& '"@ + doubled(script) + "' "@ + quoted_args(args) + " -Credential $cred"@;
            let with = script_call(script, args, Some(c));
            &&& call.len() <= with.len()
            &&& with.skip(with.len() - call.len()) == call
        }),
{
    reveal_strlit("',$secPass); & '");
    reveal_strlit("',$secPass); ");
    reveal_strlit("& '");
    let call = "& '"@ + doubled(script) + "' "@ + quoted_args(args) + " -Credential $cred"@;
    let with = script_call(script, args, Some(c));
    assert("',$secPass); & '"@ =~= "',$secPass); "@ + "& '"@);
    assert(with.skip(with.len() - call.len()) =~= call);
}

/// The elevated session stops at the first error, makes the call, sends what it writes to the two
/// files and ends with a failure where the call fails.
pub proof fn law_elevated_session_redirects_its_output(
    call: Seq<char>,
    stdout_file: Seq<char>,
    stderr_file: Seq<char>,
)
    ensures
        inner_script(call, stdout_file, stderr_file) == "$ErrorActionPreference = 'Stop'; try { "@
            + call + " *> '"@ + doubled(stdout_file) + "' 2> '"@ + doubled(stderr_file)
            + "' } catch { $_ | Out-File '"@ + doubled(stderr_file) + "' -Append; exit 1 }"@,
{
}

/// The outer session waits for the elevated one, writes out what the two files hold and ends with
/// the exit code of the elevated one.
pub proof fn law_outer_session_passes_the_exit_code_on(
    inner: Seq<char>,
    stdout_file: Seq<char>,
    stderr_file: Seq<char>,
)
    ensures
        ({
            let end =
                "'); $innerCmd = [Convert]::ToBase64String($innerBytes); $proc = Start-Process powershell.exe -Verb RunAs -ArgumentList '-NoProfile','-ExecutionPolicy','Bypass','-EncodedCommand',$innerCmd -Wait -PassThru -WindowStyle Hidden; if (Test-Path '"@
                + doubled(stdout_file) + "') { Get-Content '"@ + doubled(stdout_file)
                + "' -Raw }; if (Test-Path '"@ + doubled(stderr_file) + "') { Get-Content '"@
                + doubled(stderr_file) + "' -Raw | Write-Error }; exit $proc.ExitCode"@;
            let command = outer_command(inner, stdout_file, stderr_file);
            &&& end.len() <= command.len()
            &&& command.skip(command.len() - end.len()) == end
        }),
{
    let end =
        "'); $innerCmd = [Convert]::ToBase64String($innerBytes); $proc = Start-Process powershell.exe -Verb RunAs -ArgumentList '-NoProfile','-ExecutionPolicy','Bypass','-EncodedCommand',$innerCmd -Wait -PassThru -WindowStyle Hidden; if (Test-Path '"@
        + doubled(stdout_file) + "') { Get-Content '"@ + doubled(stdout_file)
        + "' -Raw }; if (Test-Path '"@ + doubled(stderr_file) + "') { Get-Content '"@ + doubled(
        stderr_file,
    ) + "' -Raw | Write-Error }; exit $proc.ExitCode"@;
    let command = outer_command(inner, stdout_file, stderr_file);
    assert(command.skip(command.len() - end.len()) =~= end);
}

/// The command that hands a credential on passes the exit code of the script on.
pub proof fn law_credential_command_passes_the_exit_code_on(
    script: Seq<char>,
    args: Seq<Seq<char>>,
    c: CredentialView,
)
    ensures
        ({
            let end = "; exit $LASTEXITCODE"@;
            let command = credential_command(script, args, c);
            &&& end.len() <= command.len()
            &&& command.skip(command.len() - end.len()) == end
            &&& command.take(command.len() - end.len()) == script_call(script, args, Some(c))
        }),
{
    let end = "; exit $LASTEXITCODE"@;
    let command = credential_command(script, args, c);
    assert(command.skip(command.len() - end.len()) =~= end);
    assert(command.take(command.len() - end.len()) =~= script_call(script, args, Some(c)));
}

/// In the elevated form the two sessions agree on their files, and the inner one makes the call of
/// the script.
pub proof fn law_sessions_agree_on_their_files(
    script: Seq<char>,
    args: Seq<Seq<char>>,
    credential: Option<CredentialView>,
    stdout_file: Seq<char>,
    stderr_file: Seq<char>,
)
    ensures
        elevated_command(script, args, credential, stdout_file, stderr_file) == outer_command(
            inner_script(script_call(script, args, credential), stdout_file, stderr_file),
            stdout_file,
            stderr_file,
        ),
{
}

} // verus!
