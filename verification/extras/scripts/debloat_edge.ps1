
        Write-Host 'Applying Debloat Edge Tweaks...'

        # Edge Update - disable desktop shortcut
        New-Item -Path 'HKLM:\SOFTWARE\Policies\Microsoft\EdgeUpdate' -Force | Out-Null
        Set-ItemProperty -Path 'HKLM:\SOFTWARE\Policies\Microsoft\EdgeUpdate' -Name 'CreateDesktopShortcutDefault' -Value 0 -Type DWord

        # Edge policies
        New-Item -Path 'HKLM:\SOFTWARE\Policies\Microsoft\Edge' -Force | Out-Null

        $settings = @{
            EdgeEnhanceImagesEnabled = 0
            PersonalizationReportingEnabled = 0
            ShowRecommendationsEnabled = 0
            HideFirstRunExperience = 1
            UserFeedbackAllowed = 0
            ConfigureDoNotTrack = 1
            AlternateErrorPagesEnabled = 0
            EdgeCollectionsEnabled = 0
            EdgeFollowEnabled = 0
            EdgeShoppingAssistantEnabled = 0
            MicrosoftEdgeInsiderPromotionEnabled = 0
            ShowMicrosoftRewards = 0
            WebWidgetAllowed = 0
            DiagnosticData = 0
            EdgeAssetDeliveryServiceEnabled = 0
            CryptoWalletEnabled = 0
            WalletDonationEnabled = 0
        }

        foreach ($key in $settings.Keys) {
            Set-ItemProperty -Path 'HKLM:\SOFTWARE\Policies\Microsoft\Edge' -Name $key -Value $settings[$key] -Type DWord
        }

        Write-Host '✅ Edge Debloat applied successfully.'
    