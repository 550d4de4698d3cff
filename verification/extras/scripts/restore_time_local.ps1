
    Write-Host 'Restoring RealTimeIsUniversal = 0 (use local time for hardware clock)...'
    New-Item -Path 'HKLM:\SYSTEM\CurrentControlSet\Control\TimeZoneInformation' -Force | Out-Null
    Set-ItemProperty -Path 'HKLM:\SYSTEM\CurrentControlSet\Control\TimeZoneInformation' -Name 'RealTimeIsUniversal' -Value 0 -Type DWord -Force
    Write-Output '✅ RealTimeIsUniversal set to 0. The hardware clock will be treated as local time. A reboot is recommended.'
    