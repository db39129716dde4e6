//! The PowerShell scripts of a capture session.

use vstd::prelude::*;

verus! {

/// The script that starts DebugView and the ETW trace session on the guest.
pub const START_SCRIPT: &'static str = r#"param(
    [Parameter(Mandatory)][string]$VMName,
    [Parameter(Mandatory)][string]$LogDir,
    [Parameter(Mandatory)][string]$DbgViewLog,
    [Parameter(Mandatory)][string]$EtlPath,
    [Parameter(Mandatory)][string]$SessionName,
    [Parameter(Mandatory)][string]$ProviderGuid
)

$ErrorActionPreference = 'Stop'

# --- credential setup (mirrors existing scripts) ---
$ss = New-Object System.Security.SecureString
'1234'.ToCharArray() | ForEach-Object { $ss.AppendChar($_) }
$cred = New-Object System.Management.Automation.PSCredential('DriverTestAdmin', $ss)
$session = New-PSSession -VMName $VMName -Credential $cred

try {
    # 1. Create log directory on the guest
    Invoke-Command -Session $session -ArgumentList $LogDir -ScriptBlock {
        param($Dir)
        New-Item -Path $Dir -ItemType Directory -Force | Out-Null
    }

    # 2. Set DbgPrint filter to capture all components
    Invoke-Command -Session $session -ScriptBlock {
        $regPath = 'HKLM:\SYSTEM\CurrentControlSet\Control\Session Manager\Debug Print Filter'
        if (-not (Test-Path $regPath)) { New-Item -Path $regPath -Force | Out-Null }
        Set-ItemProperty -Path $regPath -Name 'DEFAULT' -Value ([int]-1) -Type DWord
    }
    Write-Host 'DbgPrint filter configured.'

    # 3. Provision DebugView in the guest
    $hostDbgView = $null
    if ($env:DBGVIEW_PATH -and (Test-Path $env:DBGVIEW_PATH)) {
        $hostDbgView = $env:DBGVIEW_PATH
    } else {
        $hostDbgView = Join-Path $env:TEMP 'Dbgview.exe'
        if (-not (Test-Path $hostDbgView)) {
            [Net.ServicePointManager]::SecurityProtocol = [Net.SecurityProtocolType]::Tls12
            Invoke-WebRequest -Uri 'https://live.sysinternals.com/Dbgview.exe' `
                -OutFile $hostDbgView -UseBasicParsing
        }
    }
    $vmDbgView = "$LogDir\Dbgview.exe"
    Copy-Item -ToSession $session -Path $hostDbgView -Destination $vmDbgView -Force

    # 4. Accept DebugView EULA and start it
    Invoke-Command -Session $session -ArgumentList $vmDbgView, $DbgViewLog -ScriptBlock {
        param($ExePath, $LogPath)
        $eulaKey = 'HKCU:\Software\Sysinternals\DbgView'
        if (-not (Test-Path $eulaKey)) { New-Item -Path $eulaKey -Force | Out-Null }
        Set-ItemProperty -Path $eulaKey -Name 'EulaAccepted' -Value 1 -Type DWord
        Start-Process -FilePath $ExePath `
            -ArgumentList "/accepteula /k /g /t /l `"$LogPath`"" `
            -WindowStyle Hidden
    }
    Write-Host 'DebugView started.'

    # 5. Start logman ETW session
    Invoke-Command -Session $session -ArgumentList $SessionName, $EtlPath, $ProviderGuid -ScriptBlock {
        param($SName, $EPath, $PGuid)
        logman stop $SName -ets 2>&1 | Out-Null
        $out = cmd /c "logman start $SName -p `"$PGuid`" 0xFFFFFFFF 0xFF -o `"$EPath`" -ets" 2>&1 | Out-String
        if ($LASTEXITCODE -ne 0) { throw "logman start failed: $out" }
    }
    Write-Host 'ETW trace session started.'

    Write-Host 'Capture started successfully.'
} finally {
    Remove-PSSession $session -ErrorAction SilentlyContinue
}
"#;

/// The script that stops both captures and decodes the trace.
pub const STOP_SCRIPT: &'static str = r#"param(
    [Parameter(Mandatory)][string]$VMName,
    [Parameter(Mandatory)][string]$SessionName,
    [Parameter(Mandatory)][string]$EtlPath
)

$ErrorActionPreference = 'Stop'

$ss = New-Object System.Security.SecureString
'1234'.ToCharArray() | ForEach-Object { $ss.AppendChar($_) }
$cred = New-Object System.Management.Automation.PSCredential('DriverTestAdmin', $ss)
$session = New-PSSession -VMName $VMName -Credential $cred

try {
    # Stop DebugView
    Invoke-Command -Session $session -ScriptBlock {
        Get-Process -Name 'Dbgview' -ErrorAction SilentlyContinue | Stop-Process -Force
        Start-Sleep -Seconds 2
    }
    Write-Host 'DebugView stopped.'

    # Stop logman
    Invoke-Command -Session $session -ArgumentList $SessionName -ScriptBlock {
        param($SName)
        logman stop $SName -ets 2>&1 | Out-Null
    }
    Write-Host 'ETW session stopped.'

    # Decode ETL to XML via tracerpt
    Invoke-Command -Session $session -ArgumentList $EtlPath -ScriptBlock {
        param($EPath)
        $xmlPath  = $EPath -replace '\.etl$', '.xml'
        $summPath = $EPath -replace '\.etl$', '_summary.txt'
        tracerpt $EPath -o $xmlPath -of XML -summary $summPath -y 2>&1 | Out-Null
    }
    Write-Host 'ETL decoded.'

    Write-Host 'Capture stopped successfully.'
} finally {
    Remove-PSSession $session -ErrorAction SilentlyContinue
}
"#;

/// The script that copies the artefacts from the guest to the host.
pub const EXTRACT_SCRIPT: &'static str = r#"param(
    [Parameter(Mandatory)][string]$VMName,
    [Parameter(Mandatory)][string]$DbgViewLog,
    [Parameter(Mandatory)][string]$EtlPath,
    [Parameter(Mandatory)][string]$XmlPath,
    [Parameter(Mandatory)][string]$SummaryPath,
    [Parameter(Mandatory)][string]$OutputDir
)

$ErrorActionPreference = 'Stop'

$ss = New-Object System.Security.SecureString
'1234'.ToCharArray() | ForEach-Object { $ss.AppendChar($_) }
$cred = New-Object System.Management.Automation.PSCredential('DriverTestAdmin', $ss)
$session = New-PSSession -VMName $VMName -Credential $cred

New-Item -Path $OutputDir -ItemType Directory -Force | Out-Null

try {
    # DebugView log
    try {
        Copy-Item -FromSession $session -Path $DbgViewLog `
            -Destination (Join-Path $OutputDir (Split-Path $DbgViewLog -Leaf)) -Force
        Write-Host "Copied: dbgview log"
    } catch { Write-Warning "Could not copy dbgview log: $_" }

    # ETL
    try {
        Copy-Item -FromSession $session -Path $EtlPath `
            -Destination (Join-Path $OutputDir (Split-Path $EtlPath -Leaf)) -Force
        Write-Host "Copied: ETL"
    } catch { Write-Warning "Could not copy ETL: $_" }

    # XML
    try {
        Copy-Item -FromSession $session -Path $XmlPath `
            -Destination (Join-Path $OutputDir (Split-Path $XmlPath -Leaf)) -Force
        Write-Host "Copied: XML"
    } catch { Write-Warning "Could not copy XML: $_" }

    # Summary
    try {
        Copy-Item -FromSession $session -Path $SummaryPath `
            -Destination (Join-Path $OutputDir (Split-Path $SummaryPath -Leaf)) -Force
        Write-Host "Copied: summary"
    } catch { Write-Warning "Could not copy summary: $_" }

    Write-Host "Extraction complete."
} finally {
    Remove-PSSession $session -ErrorAction SilentlyContinue
}
"#;

// ---------------------------------------------------------------------------
// Laws
// ---------------------------------------------------------------------------

/// Whether `part` stands somewhere in `s`.
pub open spec fn stands_in(part: Seq<char>, s: Seq<char>) -> bool {
    exists|k: int| 0 <= k <= s.len() - part.len() && #[trigger] s.subrange(k, k + part.len()) == part
}

proof fn lemma_stands_at(part: Seq<char>, s: Seq<char>, k: int)
    requires
        0 <= k <= s.len() - part.len(),
        s.subrange(k, k + part.len()) =~= part,
    ensures
        stands_in(part, s),
{
    assert(s.subrange(k, k + part.len()) == part);
}

/// The start script declares the parameters that it is started with, makes DebugView write to its
/// log and starts the trace session with the provider and the file that it was given.
pub proof fn law_start_script()
    ensures
        stands_in("[string]$VMName"@, START_SCRIPT@),
        stands_in("[string]$LogDir"@, START_SCRIPT@),
        stands_in("[string]$DbgViewLog"@, START_SCRIPT@),
        stands_in("[string]$EtlPath"@, START_SCRIPT@),
        stands_in("[string]$SessionName"@, START_SCRIPT@),
        stands_in("[string]$ProviderGuid"@, START_SCRIPT@),
        stands_in("Start-Process -FilePath $ExePath"@, START_SCRIPT@),
        stands_in("logman start $SName -p"@, START_SCRIPT@),
{
    reveal_strlit(
        r#"param(
    [Parameter(Mandatory)][string]$VMName,
    [Parameter(Mandatory)][string]$LogDir,
    [Parameter(Mandatory)][string]$DbgViewLog,
    [Parameter(Mandatory)][string]$EtlPath,
    [Parameter(Mandatory)][string]$SessionName,
    [Parameter(Mandatory)][string]$ProviderGuid
)

$ErrorActionPreference = 'Stop'

# --- credential setup (mirrors existing scripts) ---
$ss = New-Object System.Security.SecureString
'1234'.ToCharArray() | ForEach-Object { $ss.AppendChar($_) }
$cred = New-Object System.Management.Automation.PSCredential('DriverTestAdmin', $ss)
$session = New-PSSession -VMName $VMName -Credential $cred

try {
    # 1. Create log directory on the guest
    Invoke-Command -Session $session -ArgumentList $LogDir -ScriptBlock {
        param($Dir)
        New-Item -Path $Dir -ItemType Directory -Force | Out-Null
    }

    # 2. Set DbgPrint filter to capture all components
    Invoke-Command -Session $session -ScriptBlock {
        $regPath = 'HKLM:\SYSTEM\CurrentControlSet\Control\Session Manager\Debug Print Filter'
        if (-not (Test-Path $regPath)) { New-Item -Path $regPath -Force | Out-Null }
        Set-ItemProperty -Path $regPath -Name 'DEFAULT' -Value ([int]-1) -Type DWord
    }
    Write-Host 'DbgPrint filter configured.'

    # 3. Provision DebugView in the guest
    $hostDbgView = $null
    if ($env:DBGVIEW_PATH -and (Test-Path $env:DBGVIEW_PATH)) {
        $hostDbgView = $env:DBGVIEW_PATH
    } else {
        $hostDbgView = Join-Path $env:TEMP 'Dbgview.exe'
        if (-not (Test-Path $hostDbgView)) {
            [Net.ServicePointManager]::SecurityProtocol = [Net.SecurityProtocolType]::Tls12
            Invoke-WebRequest -Uri 'https://live.sysinternals.com/Dbgview.exe' `
                -OutFile $hostDbgView -UseBasicParsing
        }
    }
    $vmDbgView = "$LogDir\Dbgview.exe"
    Copy-Item -ToSession $session -Path $hostDbgView -Destination $vmDbgView -Force

    # 4. Accept DebugView EULA and start it
    Invoke-Command -Session $session -ArgumentList $vmDbgView, $DbgViewLog -ScriptBlock {
        param($ExePath, $LogPath)
        $eulaKey = 'HKCU:\Software\Sysinternals\DbgView'
        if (-not (Test-Path $eulaKey)) { New-Item -Path $eulaKey -Force | Out-Null }
        Set-ItemProperty -Path $eulaKey -Name 'EulaAccepted' -Value 1 -Type DWord
        Start-Process -FilePath $ExePath `
            -ArgumentList "/accepteula /k /g /t /l `"$LogPath`"" `
            -WindowStyle Hidden
    }
    Write-Host 'DebugView started.'

    # 5. Start logman ETW session
    Invoke-Command -Session $session -ArgumentList $SessionName, $EtlPath, $ProviderGuid -ScriptBlock {
        param($SName, $EPath, $PGuid)
        logman stop $SName -ets 2>&1 | Out-Null
        $out = cmd /c "logman start $SName -p `"$PGuid`" 0xFFFFFFFF 0xFF -o `"$EPath`" -ets" 2>&1 | Out-String
        if ($LASTEXITCODE -ne 0) { throw "logman start failed: $out" }
    }
    Write-Host 'ETW trace session started.'

    Write-Host 'Capture started successfully.'
} finally {
    Remove-PSSession $session -ErrorAction SilentlyContinue
}
"#,
    );
    reveal_strlit("[string]$VMName");
    reveal_strlit("[string]$LogDir");
    reveal_strlit("[string]$DbgViewLog");
    reveal_strlit("[string]$EtlPath");
    reveal_strlit("[string]$SessionName");
    reveal_strlit("[string]$ProviderGuid");
    reveal_strlit("Start-Process -FilePath $ExePath");
    reveal_strlit("logman start $SName -p");
    lemma_stands_at("[string]$VMName"@, START_SCRIPT@, 33);
    lemma_stands_at("[string]$LogDir"@, START_SCRIPT@, 76);
    lemma_stands_at("[string]$DbgViewLog"@, START_SCRIPT@, 119);
    lemma_stands_at("[string]$EtlPath"@, START_SCRIPT@, 166);
    lemma_stands_at("[string]$SessionName"@, START_SCRIPT@, 210);
    lemma_stands_at("[string]$ProviderGuid"@, START_SCRIPT@, 258);
    lemma_stands_at("Start-Process -FilePath $ExePath"@, START_SCRIPT@, 2317);
    lemma_stands_at("logman start $SName -p"@, START_SCRIPT@, 2741);
}

/// The stop script declares the parameters that it is started with, ends DebugView and the trace
/// session, and decodes the trace beside it.
pub proof fn law_stop_script()
    ensures
        stands_in("[string]$VMName"@, STOP_SCRIPT@),
        stands_in("[string]$SessionName"@, STOP_SCRIPT@),
        stands_in("[string]$EtlPath"@, STOP_SCRIPT@),
        stands_in("Get-Process -Name 'Dbgview'"@, STOP_SCRIPT@),
        stands_in("logman stop $SName -ets"@, STOP_SCRIPT@),
        stands_in(r"-replace '\.etl$', '.xml'"@, STOP_SCRIPT@),
        stands_in(r"-replace '\.etl$', '_summary.txt'"@, STOP_SCRIPT@),
        stands_in("tracerpt $EPath -o $xmlPath -of XML -summary $summPath"@, STOP_SCRIPT@),
{
    reveal_strlit(
        r#"param(
    [Parameter(Mandatory)][string]$VMName,
    [Parameter(Mandatory)][string]$SessionName,
    [Parameter(Mandatory)][string]$EtlPath
)

$ErrorActionPreference = 'Stop'

$ss = New-Object System.Security.SecureString
'1234'.ToCharArray() | ForEach-Object { $ss.AppendChar($_) }
$cred = New-Object System.Management.Automation.PSCredential('DriverTestAdmin', $ss)
$session = New-PSSession -VMName $VMName -Credential $cred

try {
    # Stop DebugView
    Invoke-Command -Session $session -ScriptBlock {
        Get-Process -Name 'Dbgview' -ErrorAction SilentlyContinue | Stop-Process -Force
        Start-Sleep -Seconds 2
    }
    Write-Host 'DebugView stopped.'

    # Stop logman
    Invoke-Command -Session $session -ArgumentList $SessionName -ScriptBlock {
        param($SName)
        logman stop $SName -ets 2>&1 | Out-Null
    }
    Write-Host 'ETW session stopped.'

    # Decode ETL to XML via tracerpt
    Invoke-Command -Session $session -ArgumentList $EtlPath -ScriptBlock {
        param($EPath)
        $xmlPath  = $EPath -replace '\.etl$', '.xml'
        $summPath = $EPath -replace '\.etl$', '_summary.txt'
        tracerpt $EPath -o $xmlPath -of XML -summary $summPath -y 2>&1 | Out-Null
    }
    Write-Host 'ETL decoded.'

    Write-Host 'Capture stopped successfully.'
} finally {
    Remove-PSSession $session -ErrorAction SilentlyContinue
}
"#,
    );
    reveal_strlit("[string]$VMName");
    reveal_strlit("[string]$SessionName");
    reveal_strlit("[string]$EtlPath");
    reveal_strlit("Get-Process -Name 'Dbgview'");
    reveal_strlit("logman stop $SName -ets");
    reveal_strlit(r"-replace '\.etl$', '.xml'");
    reveal_strlit(r"-replace '\.etl$', '_summary.txt'");
    reveal_strlit("tracerpt $EPath -o $xmlPath -of XML -summary $summPath");
    lemma_stands_at("[string]$VMName"@, STOP_SCRIPT@, 33);
    lemma_stands_at("[string]$SessionName"@, STOP_SCRIPT@, 76);
    lemma_stands_at("[string]$EtlPath"@, STOP_SCRIPT@, 124);
    lemma_stands_at("Get-Process -Name 'Dbgview'"@, STOP_SCRIPT@, 516);
    lemma_stands_at("logman stop $SName -ets"@, STOP_SCRIPT@, 797);
    lemma_stands_at(r"-replace '\.etl$', '.xml'"@, STOP_SCRIPT@, 1043);
    lemma_stands_at(r"-replace '\.etl$', '_summary.txt'"@, STOP_SCRIPT@, 1096);
    lemma_stands_at("tracerpt $EPath -o $xmlPath -of XML -summary $summPath"@, STOP_SCRIPT@, 1138);
}

/// The extract script declares the parameters that it is started with and copies each of the four
/// artefacts to the output directory under its own name.
pub proof fn law_extract_script()
    ensures
        stands_in("[string]$VMName"@, EXTRACT_SCRIPT@),
        stands_in("[string]$DbgViewLog"@, EXTRACT_SCRIPT@),
        stands_in("[string]$EtlPath"@, EXTRACT_SCRIPT@),
        stands_in("[string]$XmlPath"@, EXTRACT_SCRIPT@),
        stands_in("[string]$SummaryPath"@, EXTRACT_SCRIPT@),
        stands_in("[string]$OutputDir"@, EXTRACT_SCRIPT@),
        stands_in("Join-Path $OutputDir (Split-Path $DbgViewLog -Leaf)"@, EXTRACT_SCRIPT@),
        stands_in("Join-Path $OutputDir (Split-Path $EtlPath -Leaf)"@, EXTRACT_SCRIPT@),
        stands_in("Join-Path $OutputDir (Split-Path $XmlPath -Leaf)"@, EXTRACT_SCRIPT@),
        stands_in("Join-Path $OutputDir (Split-Path $SummaryPath -Leaf)"@, EXTRACT_SCRIPT@),
{
    reveal_strlit(
        r#"param(
    [Parameter(Mandatory)][string]$VMName,
    [Parameter(Mandatory)][string]$DbgViewLog,
    [Parameter(Mandatory)][string]$EtlPath,
    [Parameter(Mandatory)][string]$XmlPath,
    [Parameter(Mandatory)][string]$SummaryPath,
    [Parameter(Mandatory)][string]$OutputDir
)

$ErrorActionPreference = 'Stop'

$ss = New-Object System.Security.SecureString
'1234'.ToCharArray() | ForEach-Object { $ss.AppendChar($_) }
$cred = New-Object System.Management.Automation.PSCredential('DriverTestAdmin', $ss)
$session = New-PSSession -VMName $VMName -Credential $cred

New-Item -Path $OutputDir -ItemType Directory -Force | Out-Null

try {
    # DebugView log
    try {
        Copy-Item -FromSession $session -Path $DbgViewLog `
            -Destination (Join-Path $OutputDir (Split-Path $DbgViewLog -Leaf)) -Force
        Write-Host "Copied: dbgview log"
    } catch { Write-Warning "Could not copy dbgview log: $_" }

    # ETL
    try {
        Copy-Item -FromSession $session -Path $EtlPath `
            -Destination (Join-Path $OutputDir (Split-Path $EtlPath -Leaf)) -Force
        Write-Host "Copied: ETL"
    } catch { Write-Warning "Could not copy ETL: $_" }

    # XML
    try {
        Copy-Item -FromSession $session -Path $XmlPath `
            -Destination (Join-Path $OutputDir (Split-Path $XmlPath -Leaf)) -Force
        Write-Host "Copied: XML"
    } catch { Write-Warning "Could not copy XML: $_" }

    # Summary
    try {
        Copy-Item -FromSession $session -Path $SummaryPath `
            -Destination (Join-Path $OutputDir (Split-Path $SummaryPath -Leaf)) -Force
        Write-Host "Copied: summary"
    } catch { Write-Warning "Could not copy summary: $_" }

    Write-Host "Extraction complete."
} finally {
    Remove-PSSession $session -ErrorAction SilentlyContinue
}
"#,
    );
    reveal_strlit("[string]$VMName");
    reveal_strlit("[string]$DbgViewLog");
    reveal_strlit("[string]$EtlPath");
    reveal_strlit("[string]$XmlPath");
    reveal_strlit("[string]$SummaryPath");
    reveal_strlit("[string]$OutputDir");
    reveal_strlit("Join-Path $OutputDir (Split-Path $DbgViewLog -Leaf)");
    reveal_strlit("Join-Path $OutputDir (Split-Path $EtlPath -Leaf)");
    reveal_strlit("Join-Path $OutputDir (Split-Path $XmlPath -Leaf)");
    reveal_strlit("Join-Path $OutputDir (Split-Path $SummaryPath -Leaf)");
    lemma_stands_at("[string]$VMName"@, EXTRACT_SCRIPT@, 33);
    lemma_stands_at("[string]$DbgViewLog"@, EXTRACT_SCRIPT@, 76);
    lemma_stands_at("[string]$EtlPath"@, EXTRACT_SCRIPT@, 123);
    lemma_stands_at("[string]$XmlPath"@, EXTRACT_SCRIPT@, 167);
    lemma_stands_at("[string]$SummaryPath"@, EXTRACT_SCRIPT@, 211);
    lemma_stands_at("[string]$OutputDir"@, EXTRACT_SCRIPT@, 259);
    lemma_stands_at("Join-Path $OutputDir (Split-Path $DbgViewLog -Leaf)"@, EXTRACT_SCRIPT@, 753);
    lemma_stands_at("Join-Path $OutputDir (Split-Path $EtlPath -Leaf)"@, EXTRACT_SCRIPT@, 1021);
    lemma_stands_at("Join-Path $OutputDir (Split-Path $XmlPath -Leaf)"@, EXTRACT_SCRIPT@, 1270);
    lemma_stands_at("Join-Path $OutputDir (Split-Path $SummaryPath -Leaf)"@, EXTRACT_SCRIPT@, 1527);
}

} // verus!
