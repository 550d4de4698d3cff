//! The disk health panel: the report that the PowerShell probe prints, and the
//! panel's loading state.
use vstd::prelude::*;

use crate::text::{chars_of, copy_range, find_char, lemma_find_char_at, lit, string_of};

verus! {

/// One SMART attribute.
pub struct SmartAttribute {
    pub id: u32,
    pub name: Option<String>,
    pub raw: u64,
}

/// One SMART-capable device.
pub struct SmartDevice {
    pub instance_name: String,
    pub predict_failure: bool,
    pub attributes: Vec<SmartAttribute>,
}

/// One physical disk.
pub struct PhysicalDisk {
    pub device_id: String,
    pub friendly_name: String,
    pub model: String,
    pub media_type: String,
    pub bus_type: String,
    pub size_bytes: u64,
    /// 0 for new, 100 for worn out.
    pub wear_percent_used: u32,
    /// 0 for worn out, 100 for new.
    pub health_percent: u32,
    pub power_on_hours: Option<u64>,
    pub temperature_c: Option<i32>,
    pub total_bytes_written: Option<u64>,
}

/// The report of the disk health probe.
pub struct DiskHealthRoot {
    pub smart_devices: Vec<SmartDevice>,
    pub physical_disks: Vec<PhysicalDisk>,
}

/// What the disk health panel holds between frames. (The channel to the worker
/// thread is kept beside it by the caller.)
pub struct DiskHealthState {
    pub loading: bool,
    pub data: Option<DiskHealthRoot>,
    pub error: Option<String>,
}

impl Default for DiskHealthState {
    /// Not loading, no report, no error.
    fn default() -> (r: Self)
        ensures
            !r.loading,
            r.data is None,
            r.error is None,
    {
        DiskHealthState { loading: false, data: None, error: None }
    }
}

/// Whether the panel starts a probe by itself: only before any report or error
/// and while none is running.
pub fn needs_auto_refresh(state: &DiskHealthState) -> (r: bool)
    ensures
        r == (state.data is None && !state.loading && state.error is None),
{
    state.data.is_none() && !state.loading && state.error.is_none()
}

/// Starts a probe unless one is running: marks the panel as loading and clears the
/// last error. Returns whether a probe was started.
pub fn begin_refresh(state: &mut DiskHealthState) -> (started: bool)
    ensures
        started == !old(state).loading,
        !started ==> *final(state) == *old(state),
        started ==> final(state).loading && final(state).error is None,
        final(state).data == old(state).data,
{
    if state.loading {
        return false;
    }
    state.loading = true;
    state.error = None;
    true
}

/// Takes the probe's result: the panel stops loading and holds the report, or
/// the error.
pub fn apply_worker_result(state: &mut DiskHealthState, result: Result<DiskHealthRoot, String>)
    ensures
        !final(state).loading,
        match result {
            Ok(d) => final(state).data == Some(d) && final(state).error == old(state).error,
            Err(e) => final(state).error == Some(e) && final(state).data == old(state).data,
        },
{
    state.loading = false;
    match result {
        Ok(d) => {
            state.data = Some(d);
        },
        Err(e) => {
            state.error = Some(e);
        },
    }
}

/// Index of the last `c` in `s`, or -1 (`str::rfind`).
pub open spec fn rfind_char(s: Seq<char>, c: char) -> int
    decreases s.len(),
{
    if s.len() == 0 {
        -1
    } else if s.last() == c {
        s.len() - 1
    } else {
        rfind_char(s.drop_last(), c)
    }
}

proof fn lemma_rfind_at(s: Seq<char>, c: char, k: int)
    requires
        -1 <= k < s.len(),
        forall|j: int| k < j < s.len() ==> #[trigger] s[j] != c,
        k == -1 || s[k] == c,
    ensures
        rfind_char(s, c) == k,
    decreases s.len(),
{
    if s.len() > 0 && k < s.len() - 1 {
        let t = s.drop_last();
        assert forall|j: int| k < j < t.len() implies #[trigger] t[j] != c by {
            assert(t[j] == s[j]);
        }
        lemma_rfind_at(t, c, k);
    }
}

/// The JSON object in the probe's output: from the first `{` to the last `}`,
/// when the last comes after the first.
pub open spec fn json_object(s: Seq<char>) -> Option<Seq<char>> {
    let start = find_char(s, '{') as int;
    let end = rfind_char(s, '}');
    if start >= s.len() || end < 0 || end <= start {
        None
    } else {
        Some(s.subrange(start, end + 1))
    }
}

/// Cuts the JSON object out of the probe's output.
pub fn extract_json_object(s: &str) -> (r: Option<String>)
    ensures
        match r {
            Some(o) => json_object(s@) == Some(o@),
            None => json_object(s@) is None,
        },
{
    let cs = chars_of(s);
    let mut start: usize = 0;
    while start < cs.len() && cs[start] != '{'
        invariant
            start <= cs.len(),
            forall|j: int| 0 <= j < start ==> cs@[j] != '{',
        decreases cs.len() - start,
    {
        start = start + 1;
    }
    proof {
        lemma_find_char_at(cs@, '{', start as int);
    }
    if start == cs.len() {
        return None;
    }
    let mut end: usize = cs.len();
    while end > 0 && cs[end - 1] != '}'
        invariant
            end <= cs.len(),
            forall|j: int| end <= j < cs.len() ==> cs@[j] != '}',
        decreases end,
    {
        end = end - 1;
    }
    proof {
        lemma_rfind_at(cs@, '}', end - 1);
    }
    if end == 0 {
        return None;
    }
    let last = end - 1;
    if last > start {
        Some(string_of(&copy_range(&cs, start, last + 1)))
    } else {
        None
    }
}

/// What the worker does with the probe's output before parsing: the JSON object,
/// or the error that none was found.
pub fn json_or_error(raw: &str) -> (r: Result<String, String>)
    ensures
        match json_object(raw@) {
            Some(o) => r matches Ok(j) && j@ == o,
            None => r matches Err(e) && e@ == "Failed to extract JSON object."@,
        },
{
    match extract_json_object(raw) {
        Some(j) => Ok(j),
        None => Err(lit("Failed to extract JSON object.")),
    }
}

/// Index of the first attribute with identifier `id`, or the count.
pub open spec fn find_attr(attrs: Seq<SmartAttribute>, id: u32) -> nat
    decreases attrs.len(),
{
    if attrs.len() == 0 {
        0
    } else if attrs[0].id == id {
        0
    } else {
        1 + find_attr(attrs.drop_first(), id)
    }
}

proof fn lemma_find_attr_at(attrs: Seq<SmartAttribute>, id: u32, k: int)
    requires
        0 <= k <= attrs.len(),
        forall|j: int| 0 <= j < k ==> (#[trigger] attrs[j]).id != id,
        k == attrs.len() || attrs[k].id == id,
    ensures
        find_attr(attrs, id) == k,
    decreases k,
{
    if k > 0 {
        let t = attrs.drop_first();
        assert forall|j: int| 0 <= j < k - 1 implies (#[trigger] t[j]).id != id by {
            assert(t[j] == attrs[j + 1]);
        }
        lemma_find_attr_at(t, id, k - 1);
    }
}

/// The raw value of the first attribute with identifier `id`, if there is one.
pub open spec fn attr_raw(attrs: Seq<SmartAttribute>, id: u32) -> Option<u64> {
    let k = find_attr(attrs, id);
    if k < attrs.len() {
        Some(attrs[k as int].raw)
    } else {
        None
    }
}

fn attr_raw_exec(attrs: &Vec<SmartAttribute>, id: u32) -> (r: Option<u64>)
    ensures
        r == attr_raw(attrs@, id),
{
    let mut k: usize = 0;
    while k < attrs.len() && attrs[k].id != id
        invariant
            k <= attrs.len(),
            forall|j: int| 0 <= j < k ==> (#[trigger] attrs@[j]).id != id,
        decreases attrs.len() - k,
    {
        k = k + 1;
    }
    proof {
        lemma_find_attr_at(attrs@, id, k as int);
    }
    if k < attrs.len() {
        Some(attrs[k].raw)
    } else {
        None
    }
}

/// The power-on hours: the raw value of SMART attribute 9.
pub fn extract_power_on_hours(smart: &SmartDevice) -> (r: Option<u64>)
    ensures
        r == attr_raw(smart.attributes@, 9),
{
    attr_raw_exec(&smart.attributes, 9)
}

/// Whole days and the hours left over.
pub fn hours_to_days(hours: u64) -> (r: (u64, u64))
    ensures
        r == (hours / 24, hours % 24),
        r.0 * 24 + r.1 == hours,
        r.1 < 24,
{
    (hours / 24, hours % 24)
}

/// The bytes written over the disk's life: the disk's own count when it is
/// positive, else 512 bytes per logical block of SMART attribute 241.
pub open spec fn lifetime_writes(phys: PhysicalDisk, smart: SmartDevice) -> Option<int> {
    match phys.total_bytes_written {
        Some(v) if v > 0 => Some(v as int),
        _ => match attr_raw(smart.attributes@, 241) {
            Some(raw) => Some(raw * 512),
            None => None,
        },
    }
}

/// The bytes written over the disk's life (see `lifetime_writes`). The count of
/// attribute 241 times 512 must fit in 64 bits when it is used.
pub fn extract_lifetime_writes(phys: &PhysicalDisk, smart: &SmartDevice) -> (r: Option<u64>)
    requires
        lifetime_writes(*phys, *smart) matches Some(w) ==> w <= u64::MAX,
    ensures
        match r {
            Some(v) => lifetime_writes(*phys, *smart) == Some(v as int),
            None => lifetime_writes(*phys, *smart) is None,
        },
{
    if let Some(v) = phys.total_bytes_written {
        if v > 0 {
            return Some(v);
        }
    }
    match attr_raw_exec(&smart.attributes, 241) {
        Some(raw) => Some(raw * 512),
        None => None,
    }
}

} // verus!

verus! {

/// What the panel shows of the first disk of a report.
pub struct DiskReport {
    pub model: String,
    pub bus_type: String,
    /// The size in (decimal) gigabytes, rounded down.
    pub size_gb: u64,
    pub temperature_c: Option<i32>,
    /// The health in percent, at most 100.
    pub health: u32,
    /// 0 when SMART predicts a failure, else 100.
    pub performance: u32,
    /// Power-on hours, and the same as whole days and hours left over.
    pub power_on: Option<(u64, u64, u64)>,
    /// The disk's wear in percent, for the remaining-life estimate.
    pub wear_percent_used: u32,
    pub lifetime_writes: Option<u64>,
}

/// What the panel shows.
pub enum DiskPanel {
    /// The probe failed with this error.
    Failed(String),
    /// No report yet.
    NoData,
    /// The report lists no disk or no SMART device.
    NoDisks,
    /// The first disk and the first SMART device of the report.
    Report(DiskReport),
}

/// The lifetime writes of the disk shown fit in 64 bits.
pub open spec fn panel_writes_fit(state: DiskHealthState) -> bool {
    state.error is None ==> match state.data {
        Some(d) => (d.physical_disks.len() > 0 && d.smart_devices.len() > 0) ==> (lifetime_writes(
            d.physical_disks@[0],
            d.smart_devices@[0],
        ) matches Some(w) ==> w <= u64::MAX),
        None => true,
    }
}

/// What the panel shows for its state: the error if the probe failed, else
/// nothing yet, else that no disk was found, else the report of the first disk
/// (taken with the first SMART device).
pub fn disk_panel(state: &DiskHealthState) -> (r: DiskPanel)
    requires
        panel_writes_fit(*state),
    ensures
        match r {
            DiskPanel::Failed(e) => state.error == Some(e),
            DiskPanel::NoData => state.error is None && state.data is None,
            DiskPanel::NoDisks => state.error is None && (state.data matches Some(d) && (
            d.physical_disks.len() == 0 || d.smart_devices.len() == 0)),
            DiskPanel::Report(rep) => state.error is None && (state.data matches Some(d) && d.physical_disks.len()
                > 0 && d.smart_devices.len() > 0 && {
                let p = d.physical_disks@[0];
                let s = d.smart_devices@[0];
                &&& rep.model@ == p.model@
                &&& rep.bus_type@ == p.bus_type@
                &&& rep.size_gb == p.size_bytes / 1_000_000_000
                &&& rep.temperature_c == p.temperature_c
                &&& rep.health == (if p.health_percent < 100 { p.health_percent } else { 100 })
                &&& rep.performance == (if s.predict_failure { 0u32 } else { 100u32 })
                &&& rep.power_on == match attr_raw(s.attributes@, 9) {
                    Some(h) => Some((h, h / 24, h % 24)),
                    None => None,
                }
                &&& rep.wear_percent_used == p.wear_percent_used
                &&& match rep.lifetime_writes {
                    Some(w) => lifetime_writes(p, s) == Some(w as int),
                    None => lifetime_writes(p, s) is None,
                }
            }),
        },
{
    match &state.error {
        Some(e) => {
            return DiskPanel::Failed(e.clone());
        },
        None => {},
    }
    match &state.data {
        None => DiskPanel::NoData,
        Some(d) => {
            if d.physical_disks.len() == 0 || d.smart_devices.len() == 0 {
                return DiskPanel::NoDisks;
            }
            let p = &d.physical_disks[0];
            let s = &d.smart_devices[0];
            let power_on = match extract_power_on_hours(s) {
                Some(h) => {
                    let (days, rem) = hours_to_days(h);
                    Some((h, days, rem))
                },
                None => None,
            };
            DiskPanel::Report(
                DiskReport {
                    model: p.model.clone(),
                    bus_type: p.bus_type.clone(),
                    size_gb: p.size_bytes / 1_000_000_000,
                    temperature_c: p.temperature_c,
                    health: if p.health_percent < 100 { p.health_percent } else { 100 },
                    performance: if s.predict_failure { 0 } else { 100 },
                    power_on,
                    wear_percent_used: p.wear_percent_used,
                    lifetime_writes: extract_lifetime_writes(p, s),
                },
            )
        },
    }
}

} // verus!
