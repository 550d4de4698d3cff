try { winget list --source winget | Where-Object { $_ -match '{0}' } | Out-String } catch { '' }