# Eoliann: Toggle show hidden files - positional arg: True/False
$raw = if ($args.Length -gt 0) { $args[0] } else { 'False' }
$IsEnabled = $false
if ($raw -eq 'True' -or $raw -eq 'true' -or $raw -eq '$true' -or $raw -eq '1' -or $raw -eq 1) { $IsEnabled = $true }

function Invoke-ShowHiddenFiles {
    Param($Enabled)
    try {
        # Use correct values: 1 = show hidden, 2 = do not show
        if ($Enabled) { Write-Host 'Enabling Hidden Files'; $value = 1 } else { Write-Host 'Disabling Hidden Files'; $value = 2 }
        $Path = 'HKCU:\Software\Microsoft\Windows\CurrentVersion\Explorer\Advanced'
        Set-ItemProperty -Path $Path -Name Hidden -Value $value -Type DWord -ErrorAction Stop
    } catch [System.Security.SecurityException] {
        Write-Warning 'Unable to set registry due to a Security Exception'
    } catch [System.Management.Automation.ItemNotFoundException] {
        Write-Warning $psitem.Exception.ErrorRecord
    } catch {
        Write-Warning 'Unhandled exception while setting Hidden'
        Write-Warning $_.Exception.StackTrace
    }
}

Invoke-ShowHiddenFiles $IsEnabled

# --- Refresh open Explorer windows ---
$shell = New-Object -ComObject Shell.Application
try { $shell.Windows() | ForEach-Object { try { $_.Refresh() } catch {} } } catch {}
try { [System.Runtime.InteropServices.Marshal]::ReleaseComObject($shell) | Out-Null } catch {}

# --- Notify shell of association/setting change via SHChangeNotify ---
$sig = @"
using System;
using System.Runtime.InteropServices;
public static class NativeMethods {
    [DllImport("shell32.dll")]
    public static extern void SHChangeNotify(long wEventId, uint uFlags, IntPtr dwItem1, IntPtr dwItem2);
}
"@
try {
    Add-Type $sig -ErrorAction SilentlyContinue
    # SHCNE_ASSOCCHANGED = 0x08000000, SHCNF_FLUSH = 0x1000
    [NativeMethods]::SHChangeNotify(0x08000000, 0x1000, [IntPtr]::Zero, [IntPtr]::Zero)
} catch {}

Write-Output 'DONE'