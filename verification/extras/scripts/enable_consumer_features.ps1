
    Write-Host 'Enabling Windows Consumer Features (restoring policy)...'
    New-Item -Path 'HKLM:\SOFTWARE\Policies\Microsoft\Windows\CloudContent' -Force | Out-Null
    Set-ItemProperty -Path 'HKLM:\SOFTWARE\Policies\Microsoft\Windows\CloudContent' -Name 'DisableWindowsConsumerFeatures' -Value 0 -Type DWord -Force
    Write-Output '✅ DisableWindowsConsumerFeatures set to 0. A restart may be required for full effect.'
    