
    Write-Host 'Disabling Activity History policies...'
    New-Item -Path 'HKLM:\SOFTWARE\Policies\Microsoft\Windows\System' -Force | Out-Null
    Set-ItemProperty -Path 'HKLM:\SOFTWARE\Policies\Microsoft\Windows\System' -Name 'EnableActivityFeed' -Value 0 -Type DWord -Force
    Set-ItemProperty -Path 'HKLM:\SOFTWARE\Policies\Microsoft\Windows\System' -Name 'PublishUserActivities' -Value 0 -Type DWord -Force
    Set-ItemProperty -Path 'HKLM:\SOFTWARE\Policies\Microsoft\Windows\System' -Name 'UploadUserActivities' -Value 0 -Type DWord -Force

    # Optional cleanup: clear Timeline/Activity & recent items (may require admin)
    try {
        $timeline = "$env:LOCALAPPDATA\ConnectedDevicesPlatform\Livedata"
        if (Test-Path $timeline) { Remove-Item -Path $timeline -Recurse -Force -ErrorAction SilentlyContinue }
    } catch {
        # ignore errors from cleanup
    }

    Write-Output '✅ Activity History policies set to 0. Recent docs/clipboard/run history may require additional cleanup and a restart.'
    