
    Write-Host 'Disabling Storage Sense for current user...'
    New-Item -Path 'HKCU:\SOFTWARE\Microsoft\Windows\CurrentVersion\StorageSense\Parameters\StoragePolicy' -Force | Out-Null
    Set-ItemProperty -Path 'HKCU:\SOFTWARE\Microsoft\Windows\CurrentVersion\StorageSense\Parameters\StoragePolicy' -Name '01' -Value 0 -Type DWord -Force
    Write-Output '✅ Storage Sense disabled (StoragePolicy[01] = 0) for current user. Temporary files will no longer be auto-deleted by Storage Sense.'
    