Get-StartApps | Where-Object { $_.AppID -like '{0}' -or $_.Name -like '{0}' } | Out-String