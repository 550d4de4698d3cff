Get-AppxPackage | Where-Object { ($_.Name -like '{0}') -or ($_.PackageFullName -like '{0}') -or ($_.PackageFamilyName -like '{0}')} |
  ForEach-Object {
    Write-Output ('[AppxUser] ' + $_.PackageFullName);
    try { Remove-AppxPackage -Package $_.PackageFullName -ErrorAction Stop; Write-Output ('[AppxUser] REMOVED: ' + $_.PackageFullName) } catch { Write-Output ('[AppxUser] FAILED: ' + $_.PackageFullName + ' -> ' + $_.Exception.Message) }
  }