powershell -NoProfile -ExecutionPolicy Bypass -Command "
        Write-Output '🛑 Removing Microsoft Copilot...'

        # Registry tweaks
        try {
            New-Item -Path 'HKLM:\SOFTWARE\Policies\Microsoft\Windows\WindowsCopilot' -Force | Out-Null
            Set-ItemProperty -Path 'HKLM:\SOFTWARE\Policies\Microsoft\Windows\WindowsCopilot' -Name 'TurnOffWindowsCopilot' -Value 1 -Type DWord
            Write-Output '✅ Copilot disabled via HKLM policy.'
        } catch {
            Write-Output '⚠️ Failed to apply HKLM Copilot policy.'
        }

        try {
            New-Item -Path 'HKCU:\Software\Policies\Microsoft\Windows\WindowsCopilot' -Force | Out-Null
            Set-ItemProperty -Path 'HKCU:\Software\Policies\Microsoft\Windows\WindowsCopilot' -Name 'TurnOffWindowsCopilot' -Value 1 -Type DWord
            Write-Output '✅ Copilot disabled via HKCU policy.'
        } catch {
            Write-Output '⚠️ Failed to apply HKCU Copilot policy.'
        }

        try {
            Set-ItemProperty -Path 'HKCU:\Software\Microsoft\Windows\CurrentVersion\Explorer\Advanced' -Name 'ShowCopilotButton' -Value 0 -Type DWord
            Write-Output '✅ Copilot button removed from taskbar.'
        } catch {
            Write-Output '⚠️ Failed to remove Copilot button.'
        }

        # Optional: remove package
        try {
            dism /online /remove-package /package-name:Microsoft.Windows.Copilot | Out-Null
            Write-Output '✅ Copilot package removal attempted.'
        } catch {
            Write-Output '⚠️ Failed to remove Copilot package.'
        }

        Write-Output '➡️ Please restart Windows to complete changes.'
    