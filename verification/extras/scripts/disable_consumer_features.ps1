
    Write-Host 'Disabling Windows Consumer Features...'
    New-Item -Path 'HKLM:\SOFTWARE\Policies\Microsoft\Windows\CloudContent' -Force | Out-Null
    Set-ItemProperty -Path 'HKLM:\SOFTWARE\Policies\Microsoft\Windows\CloudContent' -Name 'DisableWindowsConsumerFeatures' -Value 1 -Type DWord -Force
    Write-Output '✅ DisableWindowsConsumerFeatures set to 1. Some default Store apps may become inaccessible. A restart may be required.'
    