
        $ErrorActionPreference = 'SilentlyContinue'

        Write-Output "Removing Windows Update policy settings..."

        Remove-Item -Path "HKLM:\SOFTWARE\Policies\Microsoft\Windows\WindowsUpdate\AU" -Recurse -Force
        Remove-Item -Path "HKLM:\SOFTWARE\Microsoft\Windows\CurrentVersion\DeliveryOptimization" -Recurse -Force
        Remove-Item -Path "HKLM:\SOFTWARE\Microsoft\WindowsUpdate\UX\Settings" -Recurse -Force
        Remove-Item -Path "HKLM:\SOFTWARE\Policies\Microsoft\Windows\Device Metadata" -Recurse -Force
        Remove-Item -Path "HKLM:\SOFTWARE\Policies\Microsoft\Windows\DriverSearching" -Recurse -Force
        Remove-Item -Path "HKLM:\SOFTWARE\Policies\Microsoft\Windows\WindowsUpdate" -Recurse -Force

        Write-Output "Reenabling Windows Update Services..."

        Write-Output "Restored BITS to Manual"
        Set-Service -Name BITS -StartupType Manual

        Write-Output "Restored wuauserv to Manual"
        Set-Service -Name wuauserv -StartupType Manual

        Write-Output "Restored UsoSvc to Automatic"
        Set-Service -Name UsoSvc -StartupType Automatic

        Write-Output "Restored WaaSMedicSvc to Manual"
        Set-Service -Name WaaSMedicSvc -StartupType Manual

        Write-Output "Enabling update-related scheduled tasks..."

        $TaskPaths = @(
        "\Microsoft\Windows\InstallService\",
        "\Microsoft\Windows\UpdateOrchestrator\",
        "\Microsoft\Windows\UpdateAssistant\",
        "\Microsoft\Windows\WaaSMedic\",
        "\Microsoft\Windows\WindowsUpdate\",
        "\Microsoft\WindowsUpdate\"
        )

        foreach ($p in $TaskPaths) {
        Get-ScheduledTask -TaskPath $p -ErrorAction SilentlyContinue | Enable-ScheduledTask -ErrorAction SilentlyContinue
        }

        Write-Output "Windows Local Policies Reset to Default"
        secedit /configure /cfg "$Env:SystemRoot\inf\defltbase.inf" /db defltbase.sdb

        Write-Output "==================================================="
        Write-Output "---  Windows Update Settings Reset to Default   ---"
        Write-Output "==================================================="
        Write-Output "Note: You must restart your system in order for all changes to take effect."
        