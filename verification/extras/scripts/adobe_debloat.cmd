powershell -NoProfile -ExecutionPolicy Bypass -Command "
        function CCStopper {
            $path = 'C:\Program Files (x86)\Common Files\Adobe\Adobe Desktop Common\ADS\Adobe Desktop Service.exe'
            if (Test-Path $path) {
                Takeown /f $path
                $acl = Get-Acl $path
                $acl.SetOwner([System.Security.Principal.NTAccount]'Administrators')
                $acl | Set-Acl $path
                Rename-Item -Path $path -NewName 'Adobe Desktop Service.exe.old' -Force
                Write-Output '✅ Adobe Desktop Service disabled.'
            } else {
                Write-Output 'ℹ️ Adobe Desktop Service not found in default location.'
            }
        }

        function AcrobatUpdates {
            $rootPath = 'HKLM:\SOFTWARE\WOW6432Node\Adobe\Adobe ARM\Legacy\Acrobat'
            $subKeys = Get-ChildItem -Path $rootPath | Where-Object { $_.PSChildName -like '{*}' }
            foreach ($subKey in $subKeys) {
                $fullPath = Join-Path -Path $rootPath -ChildPath $subKey.PSChildName
                try {
                    Set-ItemProperty -Path $fullPath -Name Mode -Value 0
                    Write-Output '✅ Acrobat Updates disabled.'
                } catch {
                    Write-Output \"⚠️ Registry Key for Acrobat Updates not found: $fullPath\"
                }
            }
        }

        CCStopper
        AcrobatUpdates

        $services = @('AGSService','AGMService','AdobeUpdateService','Adobe Acrobat Update',
                      'Adobe Genuine Monitor Service','AdobeARMservice','Adobe Licensing Console',
                      'CCXProcess','AdobeIPCBroker','CoreSync')
        foreach ($svc in $services) {
            try {
                Set-Service -Name $svc -StartupType Disabled -ErrorAction SilentlyContinue
                Stop-Service -Name $svc -Force -ErrorAction SilentlyContinue
                Write-Output \"✅ Disabled service: $svc\"
            } catch {
                Write-Output \"⚠️ Failed to disable service: $svc\"
            }
        }
    "