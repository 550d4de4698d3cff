
        $pat = '{0}';
        $keys = @(
        'HKLM:\SOFTWARE\Microsoft\Windows\CurrentVersion\Uninstall',
        'HKLM:\SOFTWARE\WOW6432Node\Microsoft\Windows\CurrentVersion\Uninstall',
        'HKCU:\SOFTWARE\Microsoft\Windows\CurrentVersion\Uninstall'
        );
        $result = @();
        foreach ($k in $keys) {
        try {
            Get-ChildItem $k -ErrorAction SilentlyContinue | ForEach-Object {
            $p = Get-ItemProperty -Path ($_.PSPath) -ErrorAction SilentlyContinue;
            if ($p -and $p.DisplayName -and ($p.DisplayName -like ""*$pat*"")) {
                $obj = [PSCustomObject]@{ Key=$k; DisplayName=$p.DisplayName; UninstallString=$p.UninstallString };
                $result += $obj;
            }
            }
        } catch { }
        }
        if ($result.Count -gt 0) { $result | Format-List | Out-String } else { Write-Output '' }
        