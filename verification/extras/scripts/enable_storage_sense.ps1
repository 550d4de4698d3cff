
    Write-Host 'Enabling Storage Sense for current user (restoring)...'
    New-Item -Path 'HKCU:\SOFTWARE\Microsoft\Windows\CurrentVersion\StorageSense\Parameters\StoragePolicy' -Force | Out-Null
    Set-ItemProperty -Path 'HKCU:\SOFTWARE\Microsoft\Windows\CurrentVersion\StorageSense\Parameters\StoragePolicy' -Name '01' -Value 1 -Type DWord -Force
    Write-Output '✅ Storage Sense enabled (StoragePolicy[01] = 1) for current user.'
    