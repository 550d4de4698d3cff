
        param([string]$ShowRaw)
        $Show = $false
        if ($null -eq $ShowRaw -or [string]::IsNullOrWhiteSpace($ShowRaw)) {
            $Show = $true
        } else {
            $s = $ShowRaw.Trim()
            if ($s -in @('True','true','1','Yes','yes')) { $Show = $true } else { $Show = $false }
        }
        try {
            $value = if ($Show) { 0 } else { 1 }
            $Path = 'HKCU:\Software\Microsoft\Windows\CurrentVersion\Explorer\Advanced'
            Set-ItemProperty -Path $Path -Name HideFileExt -Value $value -ErrorAction Stop
            try {
                $shell = New-Object -ComObject Shell.Application
                $shell.Windows() | ForEach-Object { try { $_.Refresh() } catch {} }
                [Runtime.InteropServices.Marshal]::ReleaseComObject($shell) | Out-Null
            } catch {}
            try {
                $sig = @"
        using System;
        using System.Runtime.InteropServices;
        public static class Native {
            [DllImport("shell32.dll")]
            public static extern void SHChangeNotify(int wEventId, uint uFlags, IntPtr dwItem1, IntPtr dwItem2);
        }
        "@
                Add-Type $sig -ErrorAction SilentlyContinue
                [Native]::SHChangeNotify(0x8000000, 0x0000, [IntPtr]::Zero, [IntPtr]::Zero)
            } catch {}
            Write-Output ("OK: HideFileExt set to " + $value)
        } catch [System.UnauthorizedAccessException] {
            Write-Output ("ERROR: Permission denied - " + $_.Exception.Message)
            exit 2
        } catch {
            Write-Output ("ERROR: " + $_.Exception.Message)
            exit 1
        }
        