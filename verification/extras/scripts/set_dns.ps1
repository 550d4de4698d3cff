
        $ErrorActionPreference = 'Stop'

        # Admin check
        $isAdmin = ([Security.Principal.WindowsPrincipal] [Security.Principal.WindowsIdentity]::GetCurrent()).IsInRole(
            [Security.Principal.WindowsBuiltInRole]::Administrator)
        if (-not $isAdmin) {
            Write-Output 'ERROR: Administrator privileges required.'
            exit 1
        }

        $primary = '{primary}'
        $secondary = '{secondary}'

        # Get adapters that are Up
        $adapters = Get-NetAdapter -ErrorAction SilentlyContinue | Where-Object { $_.Status -eq 'Up' } | Select-Object -ExpandProperty Name -ErrorAction SilentlyContinue

        if (-not $adapters) {
            Write-Output 'INFO: No network adapters found to update.'
            exit 0
        }

        # If Set-DnsClientServerAddress exists, try multiple approaches (compatible)
        if (Get-Command -Name Set-DnsClientServerAddress -ErrorAction SilentlyContinue) {
            $servers = @($primary, $secondary)

            # 1) Try single-call for all adapters without AddressFamily (most compatible)
            try {
                Set-DnsClientServerAddress -InterfaceAlias $adapters -ServerAddresses $servers -ErrorAction Stop
                try { Clear-DnsClientCache -ErrorAction SilentlyContinue } catch { ipconfig /flushdns | Out-Null }
                Write-Output ('SUCCESS: DNS set on ' + ($adapters -join ', '))
                exit 0
            } catch {
                # 2) Try per-adapter call (some older builds require per-adapter calls)
                $errors = @()
                foreach ($a in $adapters) {
                    try {
                        Set-DnsClientServerAddress -InterfaceAlias $a -ServerAddresses $servers -ErrorAction Stop
                    } catch {
                        $errors += ("$a -> " + $_.Exception.Message)
                    }
                }
                if ($errors.Count -eq 0) {
                    try { Clear-DnsClientCache -ErrorAction SilentlyContinue } catch { ipconfig /flushdns | Out-Null }
                    Write-Output ('SUCCESS: DNS set per-adapter on ' + ($adapters -join ', '))
                    exit 0
                } else {
                    # Fall through to netsh fallback
                    Write-Output ('WARNING: Set-DnsClientServerAddress attempts failed: ' + ($errors -join '; '))
                }
            }
        }

        # Fallback: netsh per adapter (very compatible)
        $errors = @()
        foreach ($a in $adapters) {
            try {
                netsh interface ip set dns name="$a" source=static addr=$primary register=primary
                netsh interface ip add dns name="$a" addr=$secondary index=2
            } catch {
                $errors += ("$a -> " + $_.Exception.Message)
            }
        }

        try { ipconfig /flushdns | Out-Null } catch {}

        if ($errors.Count -gt 0) {
            Write-Output ('ERROR: Some adapters failed: ' + ($errors -join '; '))
            exit 1
        } else {
            Write-Output ('SUCCESS: DNS set (netsh fallback) on ' + ($adapters -join ', '))
            exit 0
        }
        