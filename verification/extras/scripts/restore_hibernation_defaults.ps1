
    Write-Host 'Restoring Hibernation defaults (undo)...'

    # Restore Attributes to default values (as per power scheme defaults)
    # First path: default is 1
    New-Item -Path 'HKLM:\SYSTEM\CurrentControlSet\Control\Power\PowerSettings\238C9FA8-0AAD-41ED-83F4-97BE242C8F20\7bc4a2f9-d8fc-4469-b07b-33eb785aaca0' -Force | Out-Null
    Set-ItemProperty -Path 'HKLM:\SYSTEM\CurrentControlSet\Control\Power\PowerSettings\238C9FA8-0AAD-41ED-83F4-97BE242C8F20\7bc4a2f9-d8fc-4469-b07b-33eb785aaca0' -Name 'Attributes' -Value 1 -Type DWord -Force

    # Second path: default is 0
    New-Item -Path 'HKLM:\SYSTEM\CurrentControlSet\Control\Power\PowerSettings\abfc2519-3608-4c2a-94ea-171b0ed546ab\94ac6d29-73ce-41a6-809f-6363ba21b47e' -Force | Out-Null
    Set-ItemProperty -Path 'HKLM:\SYSTEM\CurrentControlSet\Control\Power\PowerSettings\abfc2519-3608-4c2a-94ea-171b0ed546ab\94ac6d29-73ce-41a6-809f-6363ba21b47e' -Name 'Attributes' -Value 0 -Type DWord -Force

    # Turn off hibernation (if you want to disable)
    Write-Host 'Turning off hibernation...'
    Start-Process -FilePath powercfg -ArgumentList '/hibernate off' -NoNewWindow -Wait

    # Restore timeouts to conservative defaults (example values)
    Start-Process -FilePath powercfg -ArgumentList '/change standby-timeout-ac 15' -NoNewWindow -Wait
    Start-Process -FilePath powercfg -ArgumentList '/change standby-timeout-dc 15' -NoNewWindow -Wait
    Start-Process -FilePath powercfg -ArgumentList '/change monitor-timeout-ac 15' -NoNewWindow -Wait
    Start-Process -FilePath powercfg -ArgumentList '/change monitor-timeout-dc 15' -NoNewWindow -Wait

    Write-Output '✅ Hibernation and power settings restored to defaults. A restart is recommended.'
    