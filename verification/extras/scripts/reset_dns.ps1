
        $ErrorActionPreference = 'Stop'
        $isAdmin = ([Security.Principal.WindowsPrincipal] [Security.Principal.WindowsIdentity]::GetCurrent()).IsInRole(
            [Security.Principal.WindowsBuiltInRole]::Administrator)
        if (-not $isAdmin) {
            Write-Output 'ERROR: Administrator privileges required.'
            exit 1
        }

        $adapters = Get-NetAdapter -ErrorAction SilentlyContinue | Where-Object { $_.Status -eq 'Up' } | Select-Object -ExpandProperty Name -ErrorAction SilentlyContinue
        if (-not $adapters) {
            Write-Output 'INFO: No adapters found to update.'
            exit 0
        }

        # Try Reset with Set-DnsClientServerAddress if available
        if (Get-Command -Name Set-DnsClientServerAddress -ErrorAction SilentlyContinue) {
            try {
                Set-DnsClientServerAddress -InterfaceAlias $adapters -Reset -ErrorAction Stop
                try { Clear-DnsClientCache -ErrorAction SilentlyContinue } catch { ipconfig /flushdns | Out-Null }
                Write-Output ('SUCCESS: DNS reset to Automatic (DHCP) on ' + ($adapters -join ', '))
                exit 0
            } catch {
                # try per-adapter reset
                $errors = @()
                foreach ($a in $adapters) {
                    try {
                        Set-DnsClientServerAddress -InterfaceAlias $a -Reset -ErrorAction Stop
                    } catch {
                        $errors += ("$a -> " + $_.Exception.Message)
                    }
                }
                if ($errors.Count -eq 0) {
                    try { Clear-DnsClientCache -ErrorAction SilentlyContinue } catch { ipconfig /flushdns | Out-Null }
                    Write-Output ('SUCCESS: DNS reset per-adapter to DHCP on ' + ($adapters -join ', '))
                    exit 0
                } else {
                    Write-Output ('WARNING: Reset via Set-DnsClientServerAddress failed: ' + ($errors -join '; '))
                }
            }
        }

        # Fallback to netsh
        $errors = @()
        foreach ($a in $adapters) {
            try {
                netsh interface ip set dns name="$a" source=dhcp
            } catch {
                $errors += ("$a -> " + $_.Exception.Message)
            }
        }
        try { ipconfig /flushdns | Out-Null } catch {}
        if ($errors.Count -gt 0) {
            Write-Output ('ERROR: Some adapters failed to reset: ' + ($errors -join '; '))
            exit 1
        } else {
            Write-Output ('SUCCESS: DNS reset to Automatic (DHCP) on ' + ($adapters -join ', '))
            exit 0
        }
        