
    Write-Host 'Setting Hibernation as default (applying registry tweaks and powercfg settings)...'

    # Expose Hibernation powersettings in Power Options (Attributes = 2)
    New-Item -Path 'HKLM:\SYSTEM\CurrentControlSet\Control\Power\PowerSettings\238C9FA8-0AAD-41ED-83F4-97BE242C8F20\7bc4a2f9-d8fc-4469-b07b-33eb785aaca0' -Force | Out-Null
    Set-ItemProperty -Path 'HKLM:\SYSTEM\CurrentControlSet\Control\Power\PowerSettings\238C9FA8-0AAD-41ED-83F4-97BE242C8F20\7bc4a2f9-d8fc-4469-b07b-33eb785aaca0' -Name 'Attributes' -Value 2 -Type DWord -Force

    New-Item -Path 'HKLM:\SYSTEM\CurrentControlSet\Control\Power\PowerSettings\abfc2519-3608-4c2a-94ea-171b0ed546ab\94ac6d29-73ce-41a6-809f-6363ba21b47e' -Force | Out-Null
    Set-ItemProperty -Path 'HKLM:\SYSTEM\CurrentControlSet\Control\Power\PowerSettings\abfc2519-3608-4c2a-94ea-171b0ed546ab\94ac6d29-73ce-41a6-809f-6363ba21b47e' -Name 'Attributes' -Value 2 -Type DWord -Force

    # Turn on hibernation and tweak default timeouts to prefer hibernate (good for battery)
    Write-Host 'Turning on hibernation...'
    Start-Process -FilePath powercfg -ArgumentList '/hibernate on' -NoNewWindow -Wait

    # Adjust timeouts (these mirror the example; adapt numbers as desired)
    Start-Process -FilePath powercfg -ArgumentList '/change standby-timeout-ac 60' -NoNewWindow -Wait
    Start-Process -FilePath powercfg -ArgumentList '/change standby-timeout-dc 60' -NoNewWindow -Wait
    Start-Process -FilePath powercfg -ArgumentList '/change monitor-timeout-ac 10' -NoNewWindow -Wait
    Start-Process -FilePath powercfg -ArgumentList '/change monitor-timeout-dc 1' -NoNewWindow -Wait

    Write-Output '✅ Hibernation enabled and defaults applied. A restart is recommended for all changes to take full effect.'
    