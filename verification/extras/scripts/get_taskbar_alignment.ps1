
        try {
            $v = Get-ItemPropertyValue -Path 'HKCU:\SOFTWARE\Microsoft\Windows\CurrentVersion\Explorer\Advanced' -Name 'TaskbarAl' -ErrorAction Stop
            if ($v -eq 1) { Write-Output '1' } else { Write-Output '0' }
        } catch {
            Write-Output '0'
        }
        