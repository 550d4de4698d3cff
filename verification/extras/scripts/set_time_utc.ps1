
    Write-Host 'Setting RealTimeIsUniversal = 1 (use UTC for hardware clock)...'
    New-Item -Path 'HKLM:\SYSTEM\CurrentControlSet\Control\TimeZoneInformation' -Force | Out-Null
    Set-ItemProperty -Path 'HKLM:\SYSTEM\CurrentControlSet\Control\TimeZoneInformation' -Name 'RealTimeIsUniversal' -Value 1 -Type DWord -Force
    Write-Output '✅ RealTimeIsUniversal set to 1. The hardware clock will be treated as UTC (good for dual-boot with Linux). A reboot is recommended.'
    