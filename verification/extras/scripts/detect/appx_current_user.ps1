Get-AppxPackage | Where-Object { ($_.Name -like '{0}') -or ($_.PackageFullName -like '{0}') -or ($_.PackageFamilyName -like '{0}') } | Select-Object Name,PackageFullName,PackageFamilyName | Out-String