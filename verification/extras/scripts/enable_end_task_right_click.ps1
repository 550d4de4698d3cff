
        $path = 'HKCU:\Software\Microsoft\Windows\CurrentVersion\Explorer\Advanced\TaskbarDeveloperSettings'
        $name = 'TaskbarEndTask'
        $value = 1

        if (-not (Test-Path $path)) {
            New-Item -Path $path -Force | Out-Null
        }

        New-ItemProperty -Path $path -Name $name -PropertyType DWord -Value $value -Force | Out-Null
        Write-Output '✅ End Task with Right-Click enabled successfully.'
    