
    try {
        $OOSU_filepath = Join-Path $env:TEMP 'OOSU10.exe'
        $Initial_ProgressPreference = $ProgressPreference
        $ProgressPreference = 'SilentlyContinue' # speed up Invoke-WebRequest
        Write-Host 'Downloading OO Shutup 10 to' $OOSU_filepath
        Invoke-WebRequest -Uri 'https://dl5.oo-software.com/files/ooshutup10/OOSU10.exe' -OutFile $OOSU_filepath -UseBasicParsing -ErrorAction Stop
        Write-Host 'Download complete. Starting OO Shutup 10...'
        Start-Process -FilePath $OOSU_filepath -WorkingDirectory $env:TEMP
        Write-Output '✅ OO Shutup 10 launched. Please follow the application UI to apply settings.'
    } catch {
        Write-Output ('⚠ ERROR downloading or launching OO Shutup 10: ' + $_.Exception.Message)
    } finally {
        $ProgressPreference = $Initial_ProgressPreference
    }
    