
$pkgs = Get-AppxPackage | Where-Object { $_.Name -Like '*Microsoft.Copilot*' }
if ($null -eq $pkgs) { Write-Output 'Copilot Appx not found for current user.'; exit 0 }
$pkgs | Remove-AppxPackage -ErrorAction Continue
Write-Output 'Copilot Appx removed for current user.'
