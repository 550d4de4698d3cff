
        try {
            Write-Host 'Setting Taskbar alignment to: {state}'
            $Path = 'HKCU:\SOFTWARE\Microsoft\Windows\CurrentVersion\Explorer\Advanced'

            # Try direct PowerShell registry write first (no New-Item)
            try {
                Set-ItemProperty -Path $Path -Name 'TaskbarAl' -Value {value} -Type DWord -Force -ErrorAction Stop
            } catch {
                Write-Host 'Set-ItemProperty failed, attempting reg.exe fallback...' -ForegroundColor Yellow
                $regPath = 'HKCU\\SOFTWARE\\Microsoft\\Windows\\CurrentVersion\\Explorer\\Advanced'
                reg add "$regPath" /v TaskbarAl /t REG_DWORD /d {value} /f > $null
            }

            Write-Output '✅ Taskbar alignment set to {state}. Log off or restart Explorer for full effect.'
        } catch {
            Write-Output ('⚠ ERROR: Failed to set Taskbar alignment: ' + $_.Exception.Message)
        }
        