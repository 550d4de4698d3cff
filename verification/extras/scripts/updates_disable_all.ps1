
        $ErrorActionPreference = 'SilentlyContinue'

        Write-Output "Configuring registry settings..."

        New-Item -Path "HKLM:\SOFTWARE\Policies\Microsoft\Windows\WindowsUpdate\AU" -Force | Out-Null

        Set-ItemProperty -Path "HKLM:\SOFTWARE\Policies\Microsoft\Windows\WindowsUpdate\AU" -Name "NoAutoUpdate" -Type DWord -Value 1
        Set-ItemProperty -Path "HKLM:\SOFTWARE\Policies\Microsoft\Windows\WindowsUpdate\AU" -Name "AUOptions" -Type DWord -Value 1

        New-Item -Path "HKLM:\SOFTWARE\Microsoft\Windows\CurrentVersion\DeliveryOptimization\Config" -Force | Out-Null
        Set-ItemProperty -Path "HKLM:\SOFTWARE\Microsoft\Windows\CurrentVersion\DeliveryOptimization\Config" -Name "DODownloadMode" -Type DWord -Value 0

        Write-Output "Disabling services..."

        Write-Output "Disabled BITS Service"
        Set-Service -Name BITS -StartupType Disabled

        Write-Output "Disabled wuauserv Service"
        Set-Service -Name wuauserv -StartupType Disabled

        Write-Output "Disabled UsoSvc Service"
        Set-Service -Name UsoSvc -StartupType Disabled

        Write-Output "Disabled WaaSMedicSvc Service"
        Set-Service -Name WaaSMedicSvc -StartupType Disabled

        Remove-Item "C:\Windows\SoftwareDistribution\*" -Recurse -Force -ErrorAction SilentlyContinue
        Write-Output "Cleared SoftwareDistribution folder"

        Write-Output "Disabling update-related scheduled tasks..."

        $TaskPaths = @(
        "\Microsoft\Windows\InstallService\",
        "\Microsoft\Windows\UpdateOrchestrator\",
        "\Microsoft\Windows\UpdateAssistant\",
        "\Microsoft\Windows\WaaSMedic\",
        "\Microsoft\Windows\WindowsUpdate\",
        "\Microsoft\WindowsUpdate\"
        )

        foreach ($p in $TaskPaths) {
        Get-ScheduledTask -TaskPath $p -ErrorAction SilentlyContinue | Disable-ScheduledTask -ErrorAction SilentlyContinue
        }

        Write-Output "================================="
        Write-Output "---   Updates Are Disabled    ---"
        Write-Output "================================="
        Write-Output "Note: You must restart your system in order for all changes to take effect."
        