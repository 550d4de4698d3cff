
try {
  $data = winget list --source winget --output json 2>$null | ConvertFrom-Json;
  if ($null -ne $data) {
    $matches = $data | Where-Object { ($_.Id -like '{0}') -or ($_.Name -like '{0}') -or ($_.PackageIdentifier -like '{0}') };
    foreach ($m in $matches) {
      $id = $m.Id; if ([string]::IsNullOrWhiteSpace($id)) { $id = $m.PackageIdentifier };
      if (-not [string]::IsNullOrWhiteSpace($id)) {
        Write-Output ('[WingetCandidate] ' + $id);
        # attempt uninstall; capture output
        try {
          $out = winget uninstall --id $id --silent --accept-source-agreements --accept-package-agreements 2>&1 | Out-String;
          Write-Output ('[WingetUninstallOutput] ' + $out);
        } catch {
          Write-Output ('[WingetUninstallFailed] ' + $id + ' -> ' + $_.Exception.Message);
        }
      }
    }
  } else {
    Write-Output '';
  }
} catch {
  Write-Output ('[WingetError] ' + $_.Exception.Message);
}
