
        Write-Host 'Applying WPFTweaks Disable Edge...'

        # Ensure parent policy keys exist
        New-Item -Path 'HKCU:\Software\Microsoft\Windows\CurrentVersion\Policies\Explorer' -Force | Out-Null
        New-Item -Path 'HKLM:\Software\Microsoft\Windows\CurrentVersion\Policies\Explorer' -Force | Out-Null

        # Ensure DisallowRun subkey exists under HKCU
        New-Item -Path 'HKCU:\Software\Microsoft\Windows\CurrentVersion\Policies\Explorer\DisallowRun' -Force | Out-Null

        # Add string value to block msedge.exe via DisallowRun list (name: DisableEdge, value: msedge.exe)
        Try {
            New-ItemProperty -Path 'HKCU:\Software\Microsoft\Windows\CurrentVersion\Policies\Explorer\DisallowRun' -Name 'DisableEdge' -PropertyType String -Value 'msedge.exe' -Force | Out-Null
        } Catch {
            Write-Warning ("Failed to set HKCU DisallowRun entry: " + $_.Exception.Message)
        }

        # Enable DisallowRun policy under HKLM (DWord = 1)
        Try {
            Set-ItemProperty -Path 'HKLM:\Software\Microsoft\Windows\CurrentVersion\Policies\Explorer' -Name 'DisallowRun' -Value 1 -Type DWord -Force
        } Catch {
            Write-Warning ("Failed to set HKLM DisallowRun policy: " + $_.Exception.Message)
        }

        Write-Output 'SUCCESS: WPFTweaks Disable Edge applied (DisallowRun entries set).'
        