Get-AppxPackage -AllUsers | Where-Object { ($_.Name -like '{0}') -or ($_.PackageFullName -like '{0}') -or ($_.PackageFamilyName -like '{0}')} |
  ForEach-Object {
    Write-Output ('[AppxAll] ' + $_.PackageFullName);
    try { Remove-AppxPackage -Package $_.PackageFullName -AllUsers -ErrorAction Stop; Write-Output ('[AppxAll] REMOVED: ' + $_.PackageFullName) } catch { Write-Output ('[AppxAll] FAILED: ' + $_.PackageFullName + ' -> ' + $_.Exception.Message) }
  }