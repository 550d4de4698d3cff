
$bin = (New-Object -ComObject Shell.Application).NameSpace(10)
$bin.Items() | ForEach-Object {
  Write-Output ('Deleting ' + $_.Name + ' from Recycle Bin')
  try { Remove-Item $_.Path -Recurse -Force -ErrorAction SilentlyContinue } catch {}
}
