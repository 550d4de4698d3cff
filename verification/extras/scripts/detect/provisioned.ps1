Get-AppxProvisionedPackage -Online | Where-Object { ($_.DisplayName -like '{0}') -or ($_.PackageName -like '{0}') } | Select-Object DisplayName,PackageName | Out-String