
        $ErrorActionPreference = 'Stop'

        function Write-Line([string]$s) { Write-Output $s }

        # Admin check
        $isAdmin = ([Security.Principal.WindowsPrincipal] [Security.Principal.WindowsIdentity]::GetCurrent()
        ).IsInRole([Security.Principal.WindowsBuiltInRole]::Administrator)
        Write-Line ("IsAdmin: " + $isAdmin)
        if (-not $isAdmin) {
        Write-Line "ERROR: Administrator privileges required."
        exit 2
        }

        $path = Join-Path $env:windir 'Prefetch'
        if (-not (Test-Path -LiteralPath $path)) {
        Write-Line ("Prefetch folder not found: " + $path)
        exit 0
        }

        # Stop SysMain (best-effort)
        $svcStopped = $false
        try {
        Write-Line "Stopping SysMain..."
        Stop-Service -Name 'SysMain' -Force -ErrorAction Stop
        $svcStopped = $true
        } catch {
        Write-Line ("WARNING: Failed to stop SysMain: " + $_.Exception.Message)
        }

        # Enumerate items
        $items = @()
        try {
        $items = Get-ChildItem -LiteralPath $path -Force -ErrorAction Stop
        } catch {
        Write-Line ("ERROR: Failed to enumerate Prefetch: " + $_.Exception.Message)
        if ($svcStopped) {
            try { Write-Line "Starting SysMain..."; Start-Service -Name 'SysMain' -ErrorAction Stop } catch {}
        }
        exit 1
        }

        Write-Line ("Items before: " + $items.Count)

        # Delete per item, capture failures
        $failed = New-Object System.Collections.Generic.List[string]
        foreach ($it in $items) {
        try {
            Remove-Item -LiteralPath $it.FullName -Force -Recurse -ErrorAction Stop
        } catch {
            $failed.Add(($it.Name + " -> " + $_.Exception.Message)) | Out-Null
        }
        }

        # Re-check remaining
        $remaining = 0
        try {
        $remaining = (Get-ChildItem -LiteralPath $path -Force -ErrorAction SilentlyContinue | Measure-Object).Count
        } catch { $remaining = -1 }

        Write-Line ("Items remaining: " + $remaining)

        if ($failed.Count -gt 0) {
        Write-Line ("FAILED items: " + $failed.Count)
        # Nu lista prea mult, dar dă câteva exemple utile
        $failed | Select-Object -First 25 | ForEach-Object { Write-Line (" - " + $_) }
        }

        # Start SysMain back (best-effort)
        if ($svcStopped) {
        try {
            Write-Line "Starting SysMain..."
            Start-Service -Name 'SysMain' -ErrorAction Stop
        } catch {
            Write-Line ("WARNING: Failed to start SysMain: " + $_.Exception.Message)
        }
        }

        if ($failed.Count -gt 0) { exit 1 } else { exit 0 }
        