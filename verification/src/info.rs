//! The system information panel: what is read out of the probes' output, and the
//! panel's loading state.
use vstd::prelude::*;

use crate::text::{
    all_digits, chars_of, copy_range, digits_value, find_char, is_digit, lemma_find_char_at, lit, parse_u64_digits,
    parse_u64_spec, string_of, trim, trim_chars,
};

verus! {

/// The system information the panel shows.
#[derive(Clone)]
pub struct InfoData {
    pub pc_name: String,
    pub windows_edition: String,
    pub processor: String,
    pub ram_total: u64,
    pub storage_total: u64,
    pub gpu_name: String,
    pub gpu_ram: u64,
    pub installed_apps: usize,
    pub processes_count: usize,
    pub services_running: usize,
    pub network_iface: String,
    pub network_ip: String,
}

/// The panel's state: the collected information and whether a collection runs.
pub struct InfoState {
    pub data: Option<InfoData>,
    pub loading: bool,
}

impl InfoState {
    /// No information yet, nothing running.
    pub fn new() -> (r: Self)
        ensures
            r.data is None,
            !r.loading,
    {
        InfoState { data: None, loading: false }
    }
}

/// Decides whether a collection starts: not while one runs, and not when the
/// information is there and `force` is off. A forced start drops the old
/// information. Returns whether the caller should start collecting.
pub fn begin_collect(state: &mut InfoState, force: bool) -> (start: bool)
    ensures
        start == (!old(state).loading && (old(state).data is None || force)),
        !start ==> *final(state) == *old(state),
        start ==> final(state).loading,
        start && force ==> final(state).data is None,
        start && !force ==> final(state).data == old(state).data,
{
    if state.loading {
        false
    } else if state.data.is_some() && !force {
        false
    } else {
        state.loading = true;
        if force {
            state.data = None;
        }
        true
    }
}

/// Stores what a collection found and ends it.
pub fn finish_collect(state: &mut InfoState, info: InfoData)
    ensures
        final(state).data == Some(info),
        !final(state).loading,
{
    state.data = Some(info);
    state.loading = false;
}

/// The ASCII digits of `s`, in order.
pub open spec fn keep_digits(s: Seq<char>) -> Seq<char>
    decreases s.len(),
{
    if s.len() == 0 {
        seq![]
    } else {
        keep_digits(s.drop_last()) + if is_digit(s.last()) {
            seq![s.last()]
        } else {
            seq![]
        }
    }
}

proof fn lemma_keep_digits_all(s: Seq<char>)
    ensures
        all_digits(keep_digits(s)),
    decreases s.len(),
{
    if s.len() > 0 {
        lemma_keep_digits_all(s.drop_last());
    }
}

/// The number written with the digits of `s`, other characters skipped; nothing
/// when there is no digit or the number does not fit in 64 bits.
pub fn parse_number(s: &str) -> (r: Option<u64>)
    ensures
        r == parse_u64_spec(keep_digits(s@)),
{
    let cs = chars_of(s);
    let mut ds: Vec<char> = Vec::new();
    let mut i: usize = 0;
    while i < cs.len()
        invariant
            i <= cs.len(),
            ds@ == keep_digits(cs@.subrange(0, i as int)),
        decreases cs.len() - i,
    {
        proof {
            assert(cs@.subrange(0, i + 1).drop_last() =~= cs@.subrange(0, i as int));
        }
        let ghost before = ds@;
        if '0' <= cs[i] && cs[i] <= '9' {
            ds.push(cs[i]);
            assert(ds@ =~= before + seq![cs@[i as int]]);
        } else {
            assert(ds@ =~= before + Seq::<char>::empty());
        }
        i = i + 1;
    }
    assert(cs@.subrange(0, cs.len() as int) =~= cs@);
    proof {
        lemma_keep_digits_all(cs@);
    }
    if ds.len() == 0 {
        return None;
    }
    parse_u64_digits(&ds)
}

/// `s`, or `"Unknown"` when it is empty.
pub open spec fn or_unknown(s: Seq<char>) -> Seq<char> {
    if s.len() == 0 {
        "Unknown"@
    } else {
        s
    }
}

fn text_or_unknown(s: Vec<char>) -> (r: String)
    ensures
        r@ == or_unknown(s@),
{
    if s.len() == 0 {
        lit("Unknown")
    } else {
        string_of(&s)
    }
}

/// The text of a PowerShell probe: its standard output, trimmed, when it
/// succeeded, else its error output, trimmed.
pub fn pwsh_text(success: bool, stdout: &str, stderr: &str) -> (r: String)
    ensures
        r@ == if success {
            trim(stdout@)
        } else {
            trim(stderr@)
        },
{
    if success {
        string_of(&trim_chars(&chars_of(stdout)))
    } else {
        string_of(&trim_chars(&chars_of(stderr)))
    }
}

/// The two sides of `name|value` output: what precedes and what follows the first
/// `|`, when there is one.
pub open spec fn split_bar(s: Seq<char>) -> Option<(Seq<char>, Seq<char>)> {
    let i = find_char(s, '|') as int;
    if i < s.len() {
        Some((s.subrange(0, i), s.subrange(i + 1, s.len() as int)))
    } else {
        None
    }
}

fn split_bar_exec(s: &Vec<char>) -> (r: Option<(Vec<char>, Vec<char>)>)
    ensures
        match r {
            Some(p) => split_bar(s@) == Some((p.0@, p.1@)),
            None => split_bar(s@) is None,
        },
{
    let mut i: usize = 0;
    while i < s.len() && s[i] != '|'
        invariant
            i <= s.len(),
            forall|j: int| 0 <= j < i ==> s@[j] != '|',
        decreases s.len() - i,
    {
        i = i + 1;
    }
    proof {
        lemma_find_char_at(s@, '|', i as int);
    }
    if i < s.len() {
        Some((copy_range(s, 0, i), copy_range(s, i + 1, s.len())))
    } else {
        None
    }
}

/// What the probes printed: the `hostname` output as it came, and the text of
/// each PowerShell probe (see `pwsh_text`).
pub struct RawInfo {
    pub hostname: String,
    pub edition: String,
    pub processor: String,
    pub ram: String,
    pub storage: String,
    /// `<name>|<adapter RAM>` of the first video controller.
    pub gpu: String,
    pub apps: String,
    pub processes: String,
    pub services: String,
    /// `<interface alias>|<IPv4 address>` of the first usable address.
    pub network: String,
}

/// A number read with `parse_number`, or 0.
pub open spec fn number_or_zero(s: Seq<char>) -> u64 {
    match parse_u64_spec(keep_digits(s)) {
        Some(v) => v,
        None => 0,
    }
}

/// The system information read out of the probes' output.
pub open spec fn info_from(raw: RawInfo, d: InfoData) -> bool {
    &&& d.pc_name@ == or_unknown(trim(raw.hostname@))
    &&& d.windows_edition@ == or_unknown(raw.edition@)
    &&& d.processor@ == or_unknown(raw.processor@)
    &&& d.ram_total == number_or_zero(raw.ram@)
    &&& d.storage_total == number_or_zero(raw.storage@)
    &&& match split_bar(raw.gpu@) {
        Some((name, ram)) => d.gpu_name@ == trim(name) && d.gpu_ram == number_or_zero(ram),
        None => d.gpu_name@ == "Unknown"@ && d.gpu_ram == 0,
    }
    &&& d.installed_apps == number_or_zero(raw.apps@) as usize
    &&& d.processes_count == number_or_zero(raw.processes@) as usize
    &&& d.services_running == number_or_zero(raw.services@) as usize
    &&& match split_bar(raw.network@) {
        Some((iface, ip)) => d.network_iface@ == trim(iface) && d.network_ip@ == trim(ip),
        None => d.network_iface@ == "Unknown"@ && d.network_ip@ == "Unknown"@,
    }
}

fn number_or_zero_exec(s: &String) -> (r: u64)
    ensures
        r == number_or_zero(s@),
{
    match parse_number(s.as_str()) {
        Some(v) => v,
        None => 0,
    }
}

/// Reads the system information out of the probes' output: empty names become
/// `"Unknown"`, numbers are read from their digits (0 when there is none), and
/// the video controller and network lines are split at their `|`.
pub fn info_from_outputs(raw: &RawInfo) -> (d: InfoData)
    ensures
        info_from(*raw, d),
        decimal_text(raw.processes@, digits_value(raw.processes@)) && digits_value(raw.processes@) <= usize::MAX
            ==> d.processes_count == digits_value(raw.processes@),
        decimal_text(raw.services@, digits_value(raw.services@)) && digits_value(raw.services@) <= usize::MAX
            ==> d.services_running == digits_value(raw.services@),
        decimal_text(raw.apps@, digits_value(raw.apps@)) && digits_value(raw.apps@) <= usize::MAX
            ==> d.installed_apps == digits_value(raw.apps@),
        decimal_text(raw.ram@, digits_value(raw.ram@)) && digits_value(raw.ram@) <= u64::MAX
            ==> d.ram_total == digits_value(raw.ram@),
        decimal_text(raw.storage@, digits_value(raw.storage@)) && digits_value(raw.storage@) <= u64::MAX
            ==> d.storage_total == digits_value(raw.storage@),
{
    let pc_name = text_or_unknown(trim_chars(&chars_of(raw.hostname.as_str())));
    let windows_edition = text_or_unknown(chars_of(raw.edition.as_str()));
    let processor = text_or_unknown(chars_of(raw.processor.as_str()));
    let ram_total = number_or_zero_exec(&raw.ram);
    let storage_total = number_or_zero_exec(&raw.storage);
    let (gpu_name, gpu_ram) = match split_bar_exec(&chars_of(raw.gpu.as_str())) {
        Some((name, ram)) => {
            let ram_s = string_of(&ram);
            (string_of(&trim_chars(&name)), number_or_zero_exec(&ram_s))
        },
        None => (lit("Unknown"), 0u64),
    };
    let installed_apps = number_or_zero_exec(&raw.apps) as usize;
    let processes_count = number_or_zero_exec(&raw.processes) as usize;
    let services_running = number_or_zero_exec(&raw.services) as usize;
    let (network_iface, network_ip) = match split_bar_exec(&chars_of(raw.network.as_str())) {
        Some((iface, ip)) => (string_of(&trim_chars(&iface)), string_of(&trim_chars(&ip))),
        None => (lit("Unknown"), lit("Unknown")),
    };
    let d = InfoData {
        pc_name,
        windows_edition,
        processor,
        ram_total,
        storage_total,
        gpu_name,
        gpu_ram,
        installed_apps,
        processes_count,
        services_running,
        network_iface,
        network_ip,
    };
    proof {
        lemma_counts_from_their_probes(*raw, d, *raw, d, digits_value(raw.processes@));
        lemma_counts_from_their_probes(*raw, d, *raw, d, digits_value(raw.services@));
        lemma_counts_from_their_probes(*raw, d, *raw, d, digits_value(raw.apps@));
        lemma_counts_from_their_probes(*raw, d, *raw, d, digits_value(raw.ram@));
        lemma_counts_from_their_probes(*raw, d, *raw, d, digits_value(raw.storage@));
    }
    d
}

} // verus!

verus! {

/// A text made only of digits keeps all of them.
proof fn lemma_keep_digits_id(s: Seq<char>)
    requires
        all_digits(s),
    ensures
        keep_digits(s) == s,
    decreases s.len(),
{
    if s.len() > 0 {
        lemma_keep_digits_id(s.drop_last());
        assert(is_digit(s[s.len() - 1]));
        assert(s.drop_last().push(s.last()) =~= s);
    }
}

/// Whether `s` is a decimal number `n` written with digits only.
pub open spec fn decimal_text(s: Seq<char>, n: nat) -> bool {
    s.len() > 0 && all_digits(s) && digits_value(s) == n
}

/// Each count of the system information is read from its own probe, and from
/// no other: the installed-apps count from the apps probe, the open-process count
/// from the processes probe, the running-services count from the services probe,
/// RAM and storage from theirs. When a probe printed a number (that fits in a
/// `usize`), the count is that number; two collections whose probe for a count
/// printed the same text give the same count, whatever the other probes printed.
pub proof fn lemma_counts_from_their_probes(raw: RawInfo, d: InfoData, raw2: RawInfo, d2: InfoData, n: nat)
    requires
        info_from(raw, d),
        info_from(raw2, d2),
    ensures
        decimal_text(raw.processes@, n) && n <= usize::MAX ==> d.processes_count == n,
        decimal_text(raw.services@, n) && n <= usize::MAX ==> d.services_running == n,
        decimal_text(raw.apps@, n) && n <= usize::MAX ==> d.installed_apps == n,
        decimal_text(raw.ram@, n) && n <= u64::MAX ==> d.ram_total == n,
        decimal_text(raw.storage@, n) && n <= u64::MAX ==> d.storage_total == n,
        raw.processes@ == raw2.processes@ ==> d.processes_count == d2.processes_count,
        raw.services@ == raw2.services@ ==> d.services_running == d2.services_running,
        raw.apps@ == raw2.apps@ ==> d.installed_apps == d2.installed_apps,
        raw.ram@ == raw2.ram@ ==> d.ram_total == d2.ram_total,
        raw.storage@ == raw2.storage@ ==> d.storage_total == d2.storage_total,
{
    if all_digits(raw.processes@) {
        lemma_keep_digits_id(raw.processes@);
    }
    if all_digits(raw.services@) {
        lemma_keep_digits_id(raw.services@);
    }
    if all_digits(raw.apps@) {
        lemma_keep_digits_id(raw.apps@);
    }
    if all_digits(raw.ram@) {
        lemma_keep_digits_id(raw.ram@);
    }
    if all_digits(raw.storage@) {
        lemma_keep_digits_id(raw.storage@);
    }
}

} // verus!
