
            $path = 'HKLM:\SOFTWARE\Policies\BraveSoftware\Brave'
            if (-not (Test-Path $path)) {
                New-Item -Path $path -Force | Out-Null
            }
            Try {
                New-ItemProperty -Path $path -Name BraveRewardsDisabled -PropertyType DWord -Value 1 -Force | Out-Null
                New-ItemProperty -Path $path -Name BraveWalletDisabled  -PropertyType DWord -Value 1 -Force | Out-Null
                New-ItemProperty -Path $path -Name BraveVPNDisabled     -PropertyType DWord -Value 1 -Force | Out-Null
                New-ItemProperty -Path $path -Name BraveAIChatEnabled   -PropertyType DWord -Value 0 -Force | Out-Null
                Write-Output 'SUCCESS: Brave policies applied (BraveRewardsDisabled=1, BraveWalletDisabled=1, BraveVPNDisabled=1, BraveAIChatEnabled=0).'
            } Catch {
                Write-Error ("Failed to apply Brave policies: " + $_.Exception.Message)
                exit 1
            }
            