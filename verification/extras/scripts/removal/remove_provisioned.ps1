Get-AppxProvisionedPackage -Online | Where-Object { ($_.DisplayName -like '{0}') -or ($_.PackageName -like '{0}')} |
  ForEach-Object {
    Write-Output ('[Prov] ' + $_.PackageName);
    try { Remove-AppxProvisionedPackage -Online -PackageName $_.PackageName -ErrorAction Stop; Write-Output ('[Prov] REMOVED: ' + $_.PackageName) } catch { Write-Output ('[Prov] FAILED: ' + $_.PackageName + ' -> ' + $_.Exception.Message) }
  }