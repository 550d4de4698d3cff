powershell -Command "
        $remoteHostsUrl = 'https://raw.githubusercontent.com/Ruddernation-Designs/Adobe-URL-Block-List/master/hosts'
        $localHostsPath = 'C:\Windows\System32\drivers\etc\hosts'
        $tempHostsPath = 'C:\Windows\System32\drivers\etc\temp_hosts'

        try {
            Invoke-WebRequest -Uri $remoteHostsUrl -OutFile $tempHostsPath
            Write-Output 'Downloaded the remote HOSTS file to a temporary location.'
        } catch {
            Write-Output 'Failed to download the HOSTS file.'
        }

        try {
            $localHostsContent = Get-Content $localHostsPath -ErrorAction Stop
            $blockStartExists = $localHostsContent -like '*#AdobeNetBlock-start*'
            if ($blockStartExists) {
                Write-Output 'AdobeNetBlock-start already exists. Skipping addition.'
            } else {
                $newBlockContent = Get-Content $tempHostsPath -ErrorAction Stop |
                    Where-Object { $_ -notmatch '^\s*#' -and $_ -ne '' }
                $newBlockHeader = '#AdobeNetBlock-start'
                $newBlockFooter = '#AdobeNetBlock-end'
                $combinedContent = $localHostsContent + $newBlockHeader, $newBlockContent, $newBlockFooter
                $combinedContent | Set-Content $localHostsPath -Encoding ASCII
                Write-Output 'Successfully added the AdobeNetBlock.'
            }
        } catch {
            Write-Output 'Error during processing.'
        }

        Remove-Item $tempHostsPath -ErrorAction Ignore

        try {
            ipconfig /flushdns | Out-Null
            Write-Output 'DNS cache flushed successfully.'
        } catch {
            Write-Output 'Failed to flush DNS cache.'
        }
    "