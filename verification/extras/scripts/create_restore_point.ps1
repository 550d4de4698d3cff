
            # Check if the user has administrative privileges
            if (-Not ([Security.Principal.WindowsPrincipal][Security.Principal.WindowsIdentity]::GetCurrent()).IsInRole([Security.Principal.WindowsBuiltInRole]::Administrator)) {
                Write-Output "ERROR: Please run this as administrator."
                exit 1
            }

            # Ensure System Restore is enabled on the system drive
            try {
                Enable-ComputerRestore -Drive "$env:SystemDrive" | Out-Null
            } catch {
                Write-Output ("WARNING: Could not explicitly enable System Restore: " + $_.Exception.Message)
            }

            # Allow multiple restore points per day if the policy key doesn't exist
            $exists = Get-ItemProperty -Path "HKLM:\SOFTWARE\Microsoft\Windows NT\CurrentVersion\SystemRestore" -Name "SystemRestorePointCreationFrequency" -ErrorAction SilentlyContinue
            if ($null -eq $exists) {
                Write-Output "INFO: Changing system to allow multiple restore points per day..."
                try {
                    Set-ItemProperty -Path "HKLM:\SOFTWARE\Microsoft\Windows NT\CurrentVersion\SystemRestore" -Name "SystemRestorePointCreationFrequency" -Value 0 -Type DWord -Force -ErrorAction Stop
                } catch {
                    Write-Output ("WARNING: Failed to set SystemRestorePointCreationFrequency: " + $_.Exception.Message)
                }
            }

            # Try to import module (Get-ComputerRestorePoint)
            try {
                Import-Module Microsoft.PowerShell.Management -ErrorAction Stop
            } catch {
                Write-Output ("ERROR: Failed to load Microsoft.PowerShell.Management module: " + $_.Exception.Message)
                exit 1
            }

            # Get restore points for today
            try {
                $existingRestorePoints = Get-ComputerRestorePoint | Where-Object { $_.CreationTime.Date -eq (Get-Date).Date }
            } catch {
                Write-Output ("ERROR: Failed to retrieve restore points: " + $_.Exception.Message)
                exit 1
            }

            if ($existingRestorePoints.Count -eq 0) {
                $description = "System Restore Point created by Eoliann Windows Tools on $(Get-Date -Format 'yyyy-MM-dd HH:mm:ss')"
                try {
                    Checkpoint-Computer -Description $description -RestorePointType "MODIFY_SETTINGS" -ErrorAction Stop
                    Write-Output "SUCCESS: System Restore Point Created Successfully"
                } catch {
                    Write-Output ("ERROR: Failed to create restore point: " + $_.Exception.Message)
                    exit 1
                }
            } else {
                Write-Output "INFO: A restore point already exists for today; skipping creation."
            }
            