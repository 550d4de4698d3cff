
        Write-Host 'Enable Recall'
        DISM /Online /Enable-Feature /FeatureName:Recall /Quiet /NoRestart
        Write-Host 'Please restart your computer in order for the changes to be fully applied.'
    