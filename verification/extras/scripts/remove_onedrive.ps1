
    $OneDrivePath = $($env:OneDrive)
    Write-Host "Removing OneDrive"
    $regPath = "HKCU:\Software\Microsoft\Windows\CurrentVersion\Uninstall\OneDriveSetup.exe"

    if (Test-Path $regPath) {
        try {
            $OneDriveUninstallString = Get-ItemPropertyValue $regPath -Name "UninstallString" -ErrorAction Stop

            # Extract executable and args robustly (support quoted path)
            $OneDriveExe = ""
            $OneDriveArgs = ""
            if ($OneDriveUninstallString -match '^\s*"(.*?)"(.*)$') {
                $OneDriveExe = $matches[1]
                $OneDriveArgs = $matches[2].Trim()
            } elseif ($OneDriveUninstallString -match '^\s*(\S+)(.*)$') {
                $OneDriveExe = $matches[1]
                $OneDriveArgs = $matches[2].Trim()
            } else {
                $OneDriveExe = $OneDriveUninstallString.Trim()
                $OneDriveArgs = ""
            }

            # Ensure we always pass /silent to the uninstall if possible
            if ($OneDriveExe -eq "") {
                Write-Host "Could not parse uninstall executable from registry value: $OneDriveUninstallString" -ForegroundColor Red
            } else {
                if ($OneDriveArgs -ne "") { $OneDriveArgs = "$OneDriveArgs /silent" } else { $OneDriveArgs = "/silent" }
                Write-Host "Running uninstall: $OneDriveExe $OneDriveArgs"
                Start-Process -FilePath $OneDriveExe -ArgumentList $OneDriveArgs -NoNewWindow -Wait -ErrorAction Stop
            }
        } catch {
            Write-Host "Failed to run uninstall string: $_" -ForegroundColor Red
        }
    } else {
        Write-Host "OneDrive doesn't seem to be installed anymore" -ForegroundColor Yellow
        return
    }

    # Check if OneDrive got Uninstalled
    if (-not (Test-Path $regPath)) {
        Write-Host "Copy downloaded Files from the OneDrive Folder to Root UserProfile"
        try {
            if (Test-Path $OneDrivePath) {
                # Move files from OneDrive to user profile root (robocopy /mov /e /xj)
                Start-Process -FilePath powershell -ArgumentList "robocopy '$($OneDrivePath)' '$($env:USERPROFILE.TrimEnd())\ ' /mov /e /xj" -NoNewWindow -Wait
            } else {
                Write-Host "OneDrive folder not found at $OneDrivePath" -ForegroundColor Yellow
            }
        } catch {
            Write-Host "Robocopy failed: $_" -ForegroundColor Yellow
        }

        Write-Host "Removing OneDrive leftovers"
        Remove-Item -Recurse -Force -ErrorAction SilentlyContinue "$env:localappdata\Microsoft\OneDrive"
        Remove-Item -Recurse -Force -ErrorAction SilentlyContinue "$env:localappdata\OneDrive"
        Remove-Item -Recurse -Force -ErrorAction SilentlyContinue "$env:programdata\Microsoft OneDrive"
        Remove-Item -Recurse -Force -ErrorAction SilentlyContinue "$env:systemdrive\OneDriveTemp"
        reg delete "HKEY_CURRENT_USER\Software\Microsoft\OneDrive" -f 2>$null

        # check if directory is empty before removing:
        try {
            if (Test-Path $OneDrivePath) {
                $count = (Get-ChildItem $OneDrivePath -Recurse -Force -ErrorAction SilentlyContinue | Measure-Object).Count
                if ($count -eq 0) {
                    Remove-Item -Recurse -Force -ErrorAction SilentlyContinue $OneDrivePath
                } else {
                    Write-Host "Note: OneDrive folder still contains $count items. Manual check recommended." -ForegroundColor Yellow
                }
            }
        } catch {
            # ignore
        }

        Write-Host "Remove OneDrive from explorer sidebar"
        try {
            Set-ItemProperty -Path "HKCR:\CLSID\{018D5C66-4533-4307-9B53-224DE2ED1FE6}" -Name "System.IsPinnedToNameSpaceTree" -Value 0 -ErrorAction SilentlyContinue
            Set-ItemProperty -Path "HKCR:\Wow6432Node\CLSID\{018D5C66-4533-4307-9B53-224DE2ED1FE6}" -Name "System.IsPinnedToNameSpaceTree" -Value 0 -ErrorAction SilentlyContinue
        } catch { }

        Write-Host "Removing run hook for new users"
        try {
            reg load "hku\Default" "C:\Users\Default\NTUSER.DAT" 2>$null
            reg delete "HKEY_USERS\Default\SOFTWARE\Microsoft\Windows\CurrentVersion\Run" /v "OneDriveSetup" /f 2>$null
            reg unload "hku\Default" 2>$null
        } catch { }

        Write-Host "Removing startmenu entry"
        Remove-Item -Force -ErrorAction SilentlyContinue "$env:userprofile\AppData\Roaming\Microsoft\Windows\Start Menu\Programs\OneDrive.lnk"

        Write-Host "Removing scheduled task(s)"
        Get-ScheduledTask -TaskPath '\' -TaskName 'OneDrive*' -ea SilentlyContinue | Unregister-ScheduledTask -Confirm:$false -ErrorAction SilentlyContinue

        Write-Host "Shell Fixing: restoring default user shell folders"
        $ushell = 'HKCU:\Software\Microsoft\Windows\CurrentVersion\Explorer\User Shell Folders'
        Set-ItemProperty -Path $ushell -Name "AppData" -Value "$env:userprofile\AppData\Roaming" -Type ExpandString -ErrorAction SilentlyContinue
        Set-ItemProperty -Path $ushell -Name "Cache" -Value "$env:userprofile\AppData\Local\Microsoft\Windows\INetCache" -Type ExpandString -ErrorAction SilentlyContinue
        Set-ItemProperty -Path $ushell -Name "Cookies" -Value "$env:userprofile\AppData\Local\Microsoft\Windows\INetCookies" -Type ExpandString -ErrorAction SilentlyContinue
        Set-ItemProperty -Path $ushell -Name "Favorites" -Value "$env:userprofile\Favorites" -Type ExpandString -ErrorAction SilentlyContinue
        Set-ItemProperty -Path $ushell -Name "History" -Value "$env:userprofile\AppData\Local\Microsoft\Windows\History" -Type ExpandString -ErrorAction SilentlyContinue
        Set-ItemProperty -Path $ushell -Name "Local AppData" -Value "$env:userprofile\AppData\Local" -Type ExpandString -ErrorAction SilentlyContinue
        Set-ItemProperty -Path $ushell -Name "My Music" -Value "$env:userprofile\Music" -Type ExpandString -ErrorAction SilentlyContinue
        Set-ItemProperty -Path $ushell -Name "My Video" -Value "$env:userprofile\Videos" -Type ExpandString -ErrorAction SilentlyContinue
        Set-ItemProperty -Path $ushell -Name "NetHood" -Value "$env:userprofile\AppData\Roaming\Microsoft\Windows\Network Shortcuts" -Type ExpandString -ErrorAction SilentlyContinue
        Set-ItemProperty -Path $ushell -Name "PrintHood" -Value "$env:userprofile\AppData\Roaming\Microsoft\Windows\Printer Shortcuts" -Type ExpandString -ErrorAction SilentlyContinue
        Set-ItemProperty -Path $ushell -Name "Programs" -Value "$env:userprofile\AppData\Roaming\Microsoft\Windows\Start Menu\Programs" -Type ExpandString -ErrorAction SilentlyContinue
        Set-ItemProperty -Path $ushell -Name "Recent" -Value "$env:userprofile\AppData\Roaming\Microsoft\Windows\Recent" -Type ExpandString -ErrorAction SilentlyContinue
        Set-ItemProperty -Path $ushell -Name "SendTo" -Value "$env:userprofile\AppData\Roaming\Microsoft\Windows\SendTo" -Type ExpandString -ErrorAction SilentlyContinue
        Set-ItemProperty -Path $ushell -Name "Start Menu" -Value "$env:userprofile\AppData\Roaming\Microsoft\Windows\Start Menu" -Type ExpandString -ErrorAction SilentlyContinue
        Set-ItemProperty -Path $ushell -Name "Startup" -Value "$env:userprofile\AppData\Roaming\Microsoft\Windows\Start Menu\Programs\Startup" -Type ExpandString -ErrorAction SilentlyContinue
        Set-ItemProperty -Path $ushell -Name "Templates" -Value "$env:userprofile\AppData\Roaming\Microsoft\Windows\Templates" -Type ExpandString -ErrorAction SilentlyContinue
        Set-ItemProperty -Path $ushell -Name "{374DE290-123F-4565-9164-39C4925E467B}" -Value "$env:userprofile\Downloads" -Type ExpandString -ErrorAction SilentlyContinue
        Set-ItemProperty -Path $ushell -Name "Desktop" -Value "$env:userprofile\Desktop" -Type ExpandString -ErrorAction SilentlyContinue
        Set-ItemProperty -Path $ushell -Name "My Pictures" -Value "$env:userprofile\Pictures" -Type ExpandString -ErrorAction SilentlyContinue
        Set-ItemProperty -Path $ushell -Name "Personal" -Value "$env:userprofile\Documents" -Type ExpandString -ErrorAction SilentlyContinue
        Set-ItemProperty -Path $ushell -Name "{F42EE2D3-909F-4907-8871-4C22FC0BF756}" -Value "$env:userprofile\Documents" -Type ExpandString -ErrorAction SilentlyContinue
        Set-ItemProperty -Path $ushell -Name "{0DDD015D-B06C-45D5-8C4C-F59713854639}" -Value "$env:userprofile\Pictures" -Type ExpandString -ErrorAction SilentlyContinue

        Write-Host "Restarting explorer"
        taskkill.exe /F /IM "explorer.exe" 2>$null
        Start-Process "explorer.exe"

        Write-Host "Waiting for explorer to complete loading"
        Start-Sleep 5

        Write-Host "Please Note - The OneDrive folder at $OneDrivePath may still have items in it. You must manually delete it, but all files should already be copied to the base user folder." -ForegroundColor Yellow
        Write-Host "If there are files missing afterwards, please Login to Onedrive.com and download them manually" -ForegroundColor Yellow

        Write-Output "✅ OneDrive removal completed (files moved where possible)."
    } else {
        Write-Host "Something went wrong during the uninstallation of OneDrive" -ForegroundColor Red
        Write-Output "❌ OneDrive uninstall may have failed."
    }
    