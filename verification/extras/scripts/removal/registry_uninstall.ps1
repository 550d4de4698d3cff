
$pat = '{0}';
$keys = @(
  'HKLM:\SOFTWARE\Microsoft\Windows\CurrentVersion\Uninstall',
  'HKLM:\SOFTWARE\WOW6432Node\Microsoft\Windows\CurrentVersion\Uninstall',
  'HKCU:\SOFTWARE\Microsoft\Windows\CurrentVersion\Uninstall'
);
foreach ($k in $keys) {
  try {
    Get-ChildItem $k -ErrorAction SilentlyContinue | ForEach-Object {
      $p = Get-ItemProperty -Path ($_.PSPath) -ErrorAction SilentlyContinue;
      if ($p -and $p.DisplayName -and ($p.DisplayName -like ""*$pat*"") -and $p.UninstallString) {
        Write-Output ('[RegUninstall] DisplayName=' + $p.DisplayName + ' ; UninstallString=' + $p.UninstallString);
        try {
          # run uninstall string through cmd.exe to handle MSI/uninstallers; wait for completion
          Start-Process -FilePath 'cmd.exe' -ArgumentList '/C', $p.UninstallString -Wait -NoNewWindow -WindowStyle Hidden;
          Write-Output ('[RegUninstall] EXECUTED: ' + $p.DisplayName);
        } catch {
          Write-Output ('[RegUninstall] FAILED RUN: ' + $p.DisplayName + ' -> ' + $_.Exception.Message);
        }
      }
    }
  } catch {
    Write-Output ('[RegUninstall] KEYERROR: ' + $k + ' -> ' + $_.Exception.Message);
  }
}
