
        $ErrorActionPreference = 'Stop'

        # Admin check (recomandat)
        $isAdmin = ([Security.Principal.WindowsPrincipal] [Security.Principal.WindowsIdentity]::GetCurrent()
        ).IsInRole([Security.Principal.WindowsBuiltInRole]::Administrator)

        Write-Output ("IsAdmin: " + $isAdmin)
        if (-not $isAdmin) {
        Write-Output "ERROR: Please run the app as Administrator for Disk Cleanup on all partitions."
        exit 2
        }

        $cleanmgr = Join-Path $env:windir 'System32\cleanmgr.exe'
        if (-not (Test-Path -LiteralPath $cleanmgr)) {
        Write-Output ("ERROR: cleanmgr.exe not found at: " + $cleanmgr)
        exit 1
        }

        # Fixed drives (HDD/SSD) – exclude removable/network
        $drives = Get-CimInstance Win32_LogicalDisk -Filter "DriveType=3" |
        Select-Object -ExpandProperty DeviceID

        if (-not $drives -or $drives.Count -eq 0) {
        Write-Output "INFO: No fixed drives found."
        exit 0
        }

        Write-Output ("Fixed drives: " + ($drives -join ', '))

        foreach ($d in $drives) {
        try {
            Write-Output ("Running Disk Cleanup on " + $d + " ...")
            # /verylowdisk = rulează fără UI (sau minimal), folosind setările implicite.
            Start-Process -FilePath $cleanmgr -ArgumentList @("/verylowdisk","/d",$d) -WindowStyle Hidden -Wait
            Write-Output ("DONE: " + $d)
        } catch {
            Write-Output ("ERROR: " + $d + " -> " + $_.Exception.Message)
        }
        }

        Write-Output "SUCCESS: Disk Cleanup attempted on all fixed drives."
        exit 0
        