
    Write-Host "Install OneDrive via winget"
    try {
        Start-Process -FilePath winget -ArgumentList "install -e --accept-source-agreements --accept-package-agreements --silent Microsoft.OneDrive" -NoNewWindow -Wait
        Write-Output "✅ OneDrive installation (winget) completed."
    } catch {
        Write-Output "❌ OneDrive installation failed: $_"
    }
    