if (
  (Get-AppxPackage | Where-Object { ($_.Name -like '{0}') -or ($_.PackageFullName -like '{0}') -or ($_.PackageFamilyName -like '{0}')} | Measure-Object).Count -gt 0 -or
  (Get-AppxPackage -AllUsers | Where-Object { ($_.Name -like '{0}') -or ($_.PackageFullName -like '{0}') -or ($_.PackageFamilyName -like '{0}')} | Measure-Object).Count -gt 0 -or
  (Get-AppxProvisionedPackage -Online | Where-Object { ($_.DisplayName -like '{0}') -or ($_.PackageName -like '{0}')} | Measure-Object).Count -gt 0 -or
  (Get-StartApps | Where-Object { $_.AppID -like '{0}' -or $_.Name -like '{0}' } | Measure-Object).Count -gt 0
) { Write-Output '1' } else { Write-Output '0' }