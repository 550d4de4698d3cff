function Write-Log([string]$m) { Write-Output (\"[WUF] \" + (Get-Date -Format 'yyyy-MM-dd HH:mm:ss') + \" - \" + $m) }
$isAdmin = ([Security.Principal.WindowsPrincipal] [Security.Principal.WindowsIdentity]::GetCurrent()).IsInRole([Security.Principal.WindowsBuiltInRole]::Administrator)
if (-not $isAdmin) { Write-Log 'NOT_ELEVATED'; Write-Output 'PROG:0:NOT_ELEVATED'; exit 2 }
param([bool]$AggressiveFromCLI)
Write-Log 'Starting Reset Windows Update...'; Write-Output 'PROG:1:Starting Reset Windows Update'
if ($AggressiveFromCLI) { Write-Output 'PROG:2:Aggressive mode enabled' } else { Write-Output 'PROG:2:Non-aggressive mode' }
Write-Output 'PROG:5:Stopping services...'
foreach ($svc in @('BITS','wuauserv','appidsvc','cryptsvc')) { Write-Output ('PROG:7:Stopping ' + $svc); try { Stop-Service -Name $svc -Force -ErrorAction Stop; Write-Output ('PROG:9:' + $svc + ' stopped') } catch { Write-Output ('PROG:9:' + $svc + ' stop failed: ' + $_) } }
Write-Output 'PROG:12:Removing QMGR data files...'; try { Remove-Item -Path \"$env:allusersprofile\\Application Data\\Microsoft\\Network\\Downloader\\qmgr*.dat\" -ErrorAction Stop; Write-Output 'PROG:15:QMGR removed' } catch { Write-Output ('PROG:15:QMGR remove error: ' + $_) }
if ($AggressiveFromCLI) { Write-Output 'PROG:20:Renaming DataStore and Catroot2 (aggressive)'; try { Rename-Item -Path \"$env:systemroot\\SoftwareDistribution\\DataStore\" -NewName 'DataStore.bak' -ErrorAction Stop; Write-Output 'PROG:25:DataStore renamed' } catch { Write-Output ('PROG:25:DataStore rename: ' + $_) } ; try { Rename-Item -Path \"$env:systemroot\\System32\\Catroot2\" -NewName 'catroot2.bak' -ErrorAction Stop; Write-Output 'PROG:28:catroot2 renamed' } catch { Write-Output ('PROG:28:catroot2 rename: ' + $_) } }
Write-Output 'PROG:30:Renaming Download folder'; try { Rename-Item -Path \"$env:systemroot\\SoftwareDistribution\\Download\" -NewName 'Download.bak' -ErrorAction Stop; Write-Output 'PROG:35:Download renamed' } catch { Write-Output ('PROG:35:Download rename: ' + $_) }
Write-Output 'PROG:38:Removing WindowsUpdate.log'; try { Remove-Item -Path \"$env:systemroot\\WindowsUpdate.log\" -ErrorAction Stop; Write-Output 'PROG:40:WindowsUpdate.log removed' } catch { Write-Output ('PROG:40:WindowsUpdate.log remove: ' + $_) }
Write-Output 'PROG:45:Registering DLLs (may be slow)'; $old=Get-Location; Set-Location $env:systemroot\\system32; $DLLs = @('atl.dll','urlmon.dll','mshtml.dll','shdocvw.dll','browseui.dll','jscript.dll','vbscript.dll','scrrun.dll','msxml.dll','msxml3.dll','msxml6.dll'); $i=0; foreach($dll in $DLLs){ $i++; $p = 45 + [int](40 * ($i / $DLLs.Count)); Write-Output ('PROG:' + $p + ':regsvr32 ' + $dll); try { & regsvr32.exe /s $dll } catch { Write-Output ('PROG:' + $p + ':regsvr32 error ' + $dll + ' -> ' + $_) } } ; Set-Location $old; Write-Output 'PROG:85:DLL register done'
if (Test-Path 'HKLM:\\SOFTWARE\\Microsoft\\Windows\\CurrentVersion\\WindowsUpdate') { Write-Output 'PROG:86:Removing WSUS client settings'; foreach($v in @('AccountDomainSid','PingID','SusClientId')) { try { & REG DELETE \"HKLM\\SOFTWARE\\Microsoft\\Windows\\CurrentVersion\\WindowsUpdate\" /v $v /f } catch { Write-Output ('PROG:87:REG delete ' + $v + ' error: ' + $_) } } }
Write-Output 'PROG:90:Resetting WinSock and IP stack'; try { & netsh winsock reset } catch { Write-Output ('PROG:90:netsh winsock error: ' + $_) } ; try { & netsh winhttp reset proxy } catch { Write-Output ('PROG:92:netsh winhttp error: ' + $_) } ; try { & netsh int ip reset } catch { Write-Output ('PROG:94:netsh int ip error: ' + $_) }
Write-Output 'PROG:96:Removing BITS jobs'; try {
            $bitsJobs = Get-BitsTransfer -ErrorAction SilentlyContinue
            if ($bitsJobs -and $bitsJobs.Count -gt 0) {
                foreach ($job in $bitsJobs) {
                    try {
                        Remove-BitsTransfer -BitsJob $job -ErrorAction SilentlyContinue
                        Write-Output ("PROG:96:Removed BITS job: " + ($job.JobId -as [string]))
                    } catch {
                        Write-Output ("PROG:96:Remove-BitsTransfer error: " + $_.ToString())
                    }
                }
            } else {
                Write-Output "PROG:96:No BITS jobs found"
            }
        } catch {
            Write-Output ("PROG:96:Get-BitsTransfer error: " + $_.ToString())
        }
Write-Output 'PROG:98:Starting services'; Try { Get-Service BITS | Set-Service -StartupType Manual -PassThru | Start-Service } Catch { Write-Output ('PROG:98:BITS start error: ' + $_) } ; Try { Get-Service wuauserv | Set-Service -StartupType Manual -PassThru | Start-Service } Catch { Write-Output ('PROG:99:wuauserv start error: ' + $_) }
Write-Output 'PROG:100:Forcing Update detection'; Try { (New-Object -ComObject Microsoft.Update.AutoUpdate).DetectNow() } Catch { Write-Output ('PROG:100:DetectNow error: ' + $_) }
Write-Output 'PROG:100:Completed Reset Windows Update'; Write-Output 'DONE'