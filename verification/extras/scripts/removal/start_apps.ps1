
$pat = '{0}';
Get-StartApps | Where-Object { $_.AppID -like $pat -or $_.Name -like $pat } | ForEach-Object {
  $appId = $_.AppID;
  Write-Output ('[StartApps] AppID: ' + $appId);
  $family = ($appId -split '!')[0];
  Write-Output ('[StartApps] DerivedFamily: ' + $family);
  Get-AppxPackage -AllUsers | Where-Object { $_.PackageFamilyName -like (\"$family*\") -or $_.PackageFamilyName -like $family } | ForEach-Object {
    Write-Output ('[StartApps] MatchingFull:' + $_.PackageFullName);
    try { Remove-AppxPackage -Package $_.PackageFullName -AllUsers -ErrorAction Stop; Write-Output ('[StartApps] REMOVED:' + $_.PackageFullName) } catch { Write-Output ('[StartApps] FAILED:' + $_.PackageFullName + ' -> ' + $_.Exception.Message) }
  }
}
