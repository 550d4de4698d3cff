
$ErrorActionPreference = 'SilentlyContinue'

function BytesToUInt64([byte[]]$b, [int]$offset){
    [BitConverter]::ToUInt64($b, $offset)
}

function Parse-SmartVendorSpecific([byte[]]$data){
    # vendor data length should be 512 for MSStorageDriver_FailurePredictData
    # SMART attributes are 30 bytes each, starting at offset 2, 12 bytes per attribute entry in some layouts.
    # MSStorageDriver_FailurePredictData uses 12-byte entries starting at offset 2 for 30 attributes (total 362 bytes),
    # but common parsing for this WMI class: each attribute is 12 bytes: Id, Flags(2), Value, Worst, Raw(6), Reserved.
    $attrs = @()
    if (-not $data -or $data.Length -lt 362) { return $attrs }

    $offset = 2
    for ($i = 0; $i -lt 30; $i++){
        $id = [int]$data[$offset]
        if ($id -eq 0){
            $offset += 12
            continue
        }
        $value = [int]$data[$offset + 3]
        $worst = [int]$data[$offset + 4]
        $raw6 = $data[($offset + 5)..($offset + 10)]
        # raw6 is 6 bytes little-endian
        $raw = 0
        for ($j=0; $j -lt 6; $j++){
            $raw += [uint64]$raw6[$j] -shl (8*$j)
        }

        $attrs += [PSCustomObject]@{
            id = $id
            name = $null
            current = $value
            worst = $worst
            threshold = $null
            raw = $raw
        }

        $offset += 12
    }

    # Minimal name mapping for common SMART attributes (optional)
    $nameMap = @{
        5   = 'Reallocated Sectors Count'
        9   = 'Power-On Hours'
        12  = 'Power Cycle Count'
        170 = 'Available Reserved Space'
        171 = 'Program Fail Count'
        172 = 'Erase Fail Count'
        173 = 'Wear Leveling Count'
        174 = 'Unexpected Power Loss Count'
        177 = 'Wear Range Delta'
        179 = 'Used Reserved Block Count Total'
        180 = 'Unused Reserved Block Count Total'
        181 = 'Program Fail Count Total'
        182 = 'Erase Fail Count Total'
        183 = 'Runtime Bad Block'
        184 = 'End-to-End Error'
        187 = 'Reported Uncorrectable Errors'
        188 = 'Command Timeout'
        190 = 'Airflow Temperature'
        194 = 'Temperature'
        196 = 'Reallocation Event Count'
        197 = 'Current Pending Sector Count'
        198 = 'Uncorrectable Sector Count'
        199 = 'UltraDMA CRC Error Count'
        202 = 'Percent Lifetime Used'
        231 = 'Temperature'
        233 = 'Media Wearout Indicator'
        241 = 'Total LBAs Written'
        242 = 'Total LBAs Read'
    }

    foreach ($a in $attrs){
        if ($nameMap.ContainsKey($a.id)){
            $a.name = $nameMap[$a.id]
        }
    }

    return $attrs
}

$smart = @()
try {
    $pred = Get-CimInstance -Namespace root\wmi -ClassName MSStorageDriver_FailurePredictStatus
    $data = Get-CimInstance -Namespace root\wmi -ClassName MSStorageDriver_FailurePredictData

    foreach ($p in $pred){
        $inst = $p.InstanceName
        $pd = $data | Where-Object { $_.InstanceName -eq $inst } | Select-Object -First 1
        $attrs = $null
        if ($pd -and $pd.VendorSpecific){
            $attrs = Parse-SmartVendorSpecific -data $pd.VendorSpecific
        }
        $smart += [PSCustomObject]@{
            instance_name = $inst
            predict_failure = [bool]$p.PredictFailure
            reason = $null
            attributes = $attrs
        }
    }
} catch {
    # ignore
}

$disks = @()
try {
    $pd = Get-PhysicalDisk
    foreach ($d in $pd) {
        $rel = $null
        try { $rel = Get-StorageReliabilityCounter -PhysicalDisk $d } catch { $rel = $null }

        # Wear: prefer % used (Wear). If only PercentLifeRemaining exists, convert to % used.
        $wearUsed = $null
        if ($rel -and $rel.Wear -ne $null) {
            $wearUsed = [int]$rel.Wear
        } elseif ($rel -and $rel.PercentLifeRemaining -ne $null) {
            $wearUsed = 100 - [int]$rel.PercentLifeRemaining
        }

        $health = $null
        if ($wearUsed -ne $null) { $health = 100 - [int]$wearUsed }

        $powerOn = $null
        if ($rel -and $rel.PowerOnHours -ne $null) { $powerOn = [uint64]$rel.PowerOnHours }

        $temp = $null
        if ($rel -and $rel.Temperature -ne $null) { $temp = [double]$rel.Temperature }

        $totalWritten = $null
        if ($rel -and $rel.TotalBytesWritten -ne $null) { $totalWritten = [string]$rel.TotalBytesWritten }

        $disks += [PSCustomObject]@{
            device_id = [string]$d.DeviceId
            friendly_name = [string]$d.FriendlyName
            serial_number = [string]$d.SerialNumber
            model = [string]$d.Model
            media_type = [string]$d.MediaType
            bus_type = [string]$d.BusType
            size_bytes = [uint64]$d.Size

            wear_percent_used = $wearUsed
            health_percent = $health
            power_on_hours = $powerOn
            temperature_c = $temp
            total_bytes_written = $totalWritten
        }
    }
} catch {
    # ignore
}

$report = [PSCustomObject]@{
    generated_at = (Get-Date).ToString('s')
    smart_devices = $smart
    physical_disks = $disks
}

$report | ConvertTo-Json -Depth 7
