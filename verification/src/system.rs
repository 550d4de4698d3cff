//! The system tweaks: which command each setting runs, and how what the
//! command printed is turned into the tool's answer.
use vstd::prelude::*;

use crate::output::{lossy, lossy_text, ProcessOutput};
use crate::text::{
    chars_of, concat2, concat3, contains, has_sub, lines, lit, lowercase, string_of, to_lowercase,
    trim, trim_chars, split_lines, views, u64_text, decimal,
};

verus! {

/// How the DNS servers of the active adapters are set.
pub enum DnsPlan {
    /// These two servers, the first one preferred.
    Static(String, String),
    /// Back to the servers that DHCP hands out.
    Automatic,
}

/// The DNS providers offered, by name, with their two servers.
pub open spec fn dns_servers(name: Seq<char>) -> Option<(Seq<char>, Seq<char>)> {
    if name == "Google"@ {
        Some(("8.8.8.8"@, "8.8.4.4"@))
    } else if name == "Cloudflare"@ {
        Some(("1.1.1.1"@, "1.0.0.1"@))
    } else if name == "Cloudflare_Malware"@ {
        Some(("1.1.1.2"@, "1.0.0.2"@))
    } else if name == "Cloudflare_Malware_Adult"@ {
        Some(("1.1.1.3"@, "1.0.0.3"@))
    } else if name == "Open_DNS"@ {
        Some(("208.67.222.222"@, "208.67.220.220"@))
    } else if name == "Quad9"@ {
        Some(("9.9.9.9"@, "149.112.112.112"@))
    } else if name == "AdGuard_Ads_Trackers"@ {
        Some(("94.140.14.14"@, "94.140.15.15"@))
    } else if name == "AdGuard_Ads_Trackers_Malware_Adult"@ {
        Some(("94.140.14.15"@, "94.140.15.16"@))
    } else if name == "dns0.eu_Open"@ {
        Some(("193.110.81.254"@, "185.253.5.254"@))
    } else if name == "dns0.eu_ZERO"@ {
        Some(("193.110.81.9"@, "185.253.5.9"@))
    } else if name == "dns0.eu_KIDS"@ {
        Some(("193.110.81.1"@, "185.253.5.1"@))
    } else {
        None
    }
}

/// Each provider has its own servers: two different providers never share their
/// preferred server, nor their fallback server. (The filtering variants of a
/// provider answer from other addresses than its plain resolver.)
pub proof fn lemma_dns_providers_distinct(a: Seq<char>, b: Seq<char>)
    requires
        a != b,
        dns_servers(a) is Some,
        dns_servers(b) is Some,
    ensures
        (dns_servers(a)->0).0 != (dns_servers(b)->0).0,
        (dns_servers(a)->0).1 != (dns_servers(b)->0).1,
{
    reveal_strlit("8.8.8.8");
    reveal_strlit("1.1.1.1");
    reveal_strlit("1.1.1.2");
    reveal_strlit("1.1.1.3");
    reveal_strlit("208.67.222.222");
    reveal_strlit("9.9.9.9");
    reveal_strlit("94.140.14.14");
    reveal_strlit("94.140.14.15");
    reveal_strlit("193.110.81.254");
    reveal_strlit("193.110.81.9");
    reveal_strlit("193.110.81.1");
    reveal_strlit("8.8.4.4");
    reveal_strlit("1.0.0.1");
    reveal_strlit("1.0.0.2");
    reveal_strlit("1.0.0.3");
    reveal_strlit("208.67.220.220");
    reveal_strlit("149.112.112.112");
    reveal_strlit("94.140.15.15");
    reveal_strlit("94.140.15.16");
    reveal_strlit("185.253.5.254");
    reveal_strlit("185.253.5.9");
    reveal_strlit("185.253.5.1");
    reveal_strlit("Google");
    reveal_strlit("Cloudflare");
    reveal_strlit("Cloudflare_Malware");
    reveal_strlit("Cloudflare_Malware_Adult");
    reveal_strlit("Open_DNS");
    reveal_strlit("Quad9");
    reveal_strlit("AdGuard_Ads_Trackers");
    reveal_strlit("AdGuard_Ads_Trackers_Malware_Adult");
    reveal_strlit("dns0.eu_Open");
    reveal_strlit("dns0.eu_ZERO");
    reveal_strlit("dns0.eu_KIDS");
    assert("8.8.8.8"@.len() == 7 && "8.8.8.8"@[0] == '8' && "8.8.8.8"@[6] == '8');
    assert("1.1.1.1"@.len() == 7 && "1.1.1.1"@[0] == '1' && "1.1.1.1"@[6] == '1');
    assert("1.1.1.2"@.len() == 7 && "1.1.1.2"@[0] == '1' && "1.1.1.2"@[6] == '2');
    assert("1.1.1.3"@.len() == 7 && "1.1.1.3"@[0] == '1' && "1.1.1.3"@[6] == '3');
    assert("208.67.222.222"@.len() == 14 && "208.67.222.222"@[0] == '2' && "208.67.222.222"@[13] == '2');
    assert("9.9.9.9"@.len() == 7 && "9.9.9.9"@[0] == '9' && "9.9.9.9"@[6] == '9');
    assert("94.140.14.14"@.len() == 12 && "94.140.14.14"@[0] == '9' && "94.140.14.14"@[11] == '4');
    assert("94.140.14.15"@.len() == 12 && "94.140.14.15"@[0] == '9' && "94.140.14.15"@[11] == '5');
    assert("193.110.81.254"@.len() == 14 && "193.110.81.254"@[0] == '1' && "193.110.81.254"@[13] == '4');
    assert("193.110.81.9"@.len() == 12 && "193.110.81.9"@[0] == '1' && "193.110.81.9"@[11] == '9');
    assert("193.110.81.1"@.len() == 12 && "193.110.81.1"@[0] == '1' && "193.110.81.1"@[11] == '1');
    assert("8.8.4.4"@.len() == 7 && "8.8.4.4"@[0] == '8' && "8.8.4.4"@[6] == '4');
    assert("1.0.0.1"@.len() == 7 && "1.0.0.1"@[0] == '1' && "1.0.0.1"@[6] == '1');
    assert("1.0.0.2"@.len() == 7 && "1.0.0.2"@[0] == '1' && "1.0.0.2"@[6] == '2');
    assert("1.0.0.3"@.len() == 7 && "1.0.0.3"@[0] == '1' && "1.0.0.3"@[6] == '3');
    assert("208.67.220.220"@.len() == 14 && "208.67.220.220"@[0] == '2' && "208.67.220.220"@[13] == '0');
    assert("149.112.112.112"@.len() == 15 && "149.112.112.112"@[0] == '1' && "149.112.112.112"@[14] == '2');
    assert("94.140.15.15"@.len() == 12 && "94.140.15.15"@[0] == '9' && "94.140.15.15"@[11] == '5');
    assert("94.140.15.16"@.len() == 12 && "94.140.15.16"@[0] == '9' && "94.140.15.16"@[11] == '6');
    assert("185.253.5.254"@.len() == 13 && "185.253.5.254"@[0] == '1' && "185.253.5.254"@[12] == '4');
    assert("185.253.5.9"@.len() == 11 && "185.253.5.9"@[0] == '1' && "185.253.5.9"@[10] == '9');
    assert("185.253.5.1"@.len() == 11 && "185.253.5.1"@[0] == '1' && "185.253.5.1"@[10] == '1');
    assert("Google"@.len() == 6 && "Google"@[0] == 'G' && "Google"@[5] == 'e');
    assert("Cloudflare"@.len() == 10 && "Cloudflare"@[0] == 'C' && "Cloudflare"@[9] == 'e');
    assert("Cloudflare_Malware"@.len() == 18 && "Cloudflare_Malware"@[0] == 'C' && "Cloudflare_Malware"@[17] == 'e');
    assert("Cloudflare_Malware_Adult"@.len() == 24 && "Cloudflare_Malware_Adult"@[0] == 'C' && "Cloudflare_Malware_Adult"@[23] == 't');
    assert("Open_DNS"@.len() == 8 && "Open_DNS"@[0] == 'O' && "Open_DNS"@[7] == 'S');
    assert("Quad9"@.len() == 5 && "Quad9"@[0] == 'Q' && "Quad9"@[4] == '9');
    assert("AdGuard_Ads_Trackers"@.len() == 20 && "AdGuard_Ads_Trackers"@[0] == 'A' && "AdGuard_Ads_Trackers"@[19] == 's');
    assert("AdGuard_Ads_Trackers_Malware_Adult"@.len() == 34 && "AdGuard_Ads_Trackers_Malware_Adult"@[0] == 'A' && "AdGuard_Ads_Trackers_Malware_Adult"@[33] == 't');
    assert("dns0.eu_Open"@.len() == 12 && "dns0.eu_Open"@[0] == 'd' && "dns0.eu_Open"@[11] == 'n' && "dns0.eu_Open"@[8] == 'O');
    assert("dns0.eu_ZERO"@.len() == 12 && "dns0.eu_ZERO"@[0] == 'd' && "dns0.eu_ZERO"@[11] == 'O' && "dns0.eu_ZERO"@[8] == 'Z');
    assert("dns0.eu_KIDS"@.len() == 12 && "dns0.eu_KIDS"@[0] == 'd' && "dns0.eu_KIDS"@[11] == 'S' && "dns0.eu_KIDS"@[8] == 'K');
}

fn is(a: &String, b: &str) -> (r: bool)
    ensures
        r == (a@ == b@),
{
    *a == lit(b)
}

fn servers(a: &str, b: &str) -> (r: Result<DnsPlan, String>)
    ensures
        r matches Ok(DnsPlan::Static(x, y)) && x@ == a@ && y@ == b@,
{
    Ok(DnsPlan::Static(lit(a), lit(b)))
}

/// The DNS plan of a provider: its two servers, DHCP for `Automatic (DHCP)`, or
/// `❌ Unknown DNS provider`.
pub fn dns_plan(provider: &str) -> (r: Result<DnsPlan, String>)
    ensures
        dns_servers(provider@) matches Some((a, b)) ==> (r matches Ok(DnsPlan::Static(x, y)) && x@ == a && y@ == b),
        dns_servers(provider@) is None && provider@ == "Automatic (DHCP)"@ ==> r matches Ok(DnsPlan::Automatic),
        dns_servers(provider@) is None && provider@ != "Automatic (DHCP)"@ ==> (r matches Err(e) && e@
            == "❌ Unknown DNS provider"@),
        provider@ == "Google"@ ==> (r matches Ok(DnsPlan::Static(x, y)) && x@ == "8.8.8.8"@ && y@ == "8.8.4.4"@),
        provider@ == "Cloudflare"@ ==> (r matches Ok(DnsPlan::Static(x, y)) && x@ == "1.1.1.1"@ && y@ == "1.0.0.1"@),
        provider@ == "Cloudflare_Malware"@ ==> (r matches Ok(DnsPlan::Static(x, y)) && x@ == "1.1.1.2"@ && y@ == "1.0.0.2"@),
        provider@ == "Cloudflare_Malware_Adult"@ ==> (r matches Ok(DnsPlan::Static(x, y)) && x@ == "1.1.1.3"@ && y@ == "1.0.0.3"@),
        provider@ == "Open_DNS"@ ==> (r matches Ok(DnsPlan::Static(x, y)) && x@ == "208.67.222.222"@ && y@ == "208.67.220.220"@),
        provider@ == "Quad9"@ ==> (r matches Ok(DnsPlan::Static(x, y)) && x@ == "9.9.9.9"@ && y@ == "149.112.112.112"@),
        provider@ == "AdGuard_Ads_Trackers"@ ==> (r matches Ok(DnsPlan::Static(x, y)) && x@ == "94.140.14.14"@ && y@ == "94.140.15.15"@),
        provider@ == "AdGuard_Ads_Trackers_Malware_Adult"@ ==> (r matches Ok(DnsPlan::Static(x, y)) && x@ == "94.140.14.15"@ && y@ == "94.140.15.16"@),
        provider@ == "dns0.eu_Open"@ ==> (r matches Ok(DnsPlan::Static(x, y)) && x@ == "193.110.81.254"@ && y@ == "185.253.5.254"@),
        provider@ == "dns0.eu_ZERO"@ ==> (r matches Ok(DnsPlan::Static(x, y)) && x@ == "193.110.81.9"@ && y@ == "185.253.5.9"@),
        provider@ == "dns0.eu_KIDS"@ ==> (r matches Ok(DnsPlan::Static(x, y)) && x@ == "193.110.81.1"@ && y@ == "185.253.5.1"@),
        provider@ == "Automatic (DHCP)"@ ==> r matches Ok(DnsPlan::Automatic),
{
    proof {
        reveal_strlit("Google");
        reveal_strlit("Cloudflare");
        reveal_strlit("Cloudflare_Malware");
        reveal_strlit("Cloudflare_Malware_Adult");
        reveal_strlit("Open_DNS");
        reveal_strlit("Quad9");
        reveal_strlit("AdGuard_Ads_Trackers");
        reveal_strlit("AdGuard_Ads_Trackers_Malware_Adult");
        reveal_strlit("dns0.eu_Open");
        reveal_strlit("dns0.eu_ZERO");
        reveal_strlit("dns0.eu_KIDS");
        reveal_strlit("Automatic (DHCP)");
        assert("Google"@.len() == 6 && "Google"@[0] == 'G' && "Google"@[5] == 'e');
        assert("Cloudflare"@.len() == 10 && "Cloudflare"@[0] == 'C' && "Cloudflare"@[9] == 'e');
        assert("Cloudflare_Malware"@.len() == 18 && "Cloudflare_Malware"@[0] == 'C' && "Cloudflare_Malware"@[17] == 'e');
        assert("Cloudflare_Malware_Adult"@.len() == 24 && "Cloudflare_Malware_Adult"@[0] == 'C' && "Cloudflare_Malware_Adult"@[23] == 't');
        assert("Open_DNS"@.len() == 8 && "Open_DNS"@[0] == 'O' && "Open_DNS"@[7] == 'S');
        assert("Quad9"@.len() == 5 && "Quad9"@[0] == 'Q' && "Quad9"@[4] == '9');
        assert("AdGuard_Ads_Trackers"@.len() == 20 && "AdGuard_Ads_Trackers"@[0] == 'A' && "AdGuard_Ads_Trackers"@[19] == 's');
        assert("AdGuard_Ads_Trackers_Malware_Adult"@.len() == 34 && "AdGuard_Ads_Trackers_Malware_Adult"@[0] == 'A' && "AdGuard_Ads_Trackers_Malware_Adult"@[33] == 't');
        assert("dns0.eu_Open"@.len() == 12 && "dns0.eu_Open"@[0] == 'd' && "dns0.eu_Open"@[11] == 'n' && "dns0.eu_Open"@[8] == 'O');
        assert("dns0.eu_ZERO"@.len() == 12 && "dns0.eu_ZERO"@[0] == 'd' && "dns0.eu_ZERO"@[11] == 'O' && "dns0.eu_ZERO"@[8] == 'Z');
        assert("dns0.eu_KIDS"@.len() == 12 && "dns0.eu_KIDS"@[0] == 'd' && "dns0.eu_KIDS"@[11] == 'S' && "dns0.eu_KIDS"@[8] == 'K');
        assert("Automatic (DHCP)"@.len() == 16 && "Automatic (DHCP)"@[0] == 'A' && "Automatic (DHCP)"@[15] == ')');
    }
    let p = lit(provider);
    if is(&p, "Google") {
        servers("8.8.8.8", "8.8.4.4")
    } else if is(&p, "Cloudflare") {
        servers("1.1.1.1", "1.0.0.1")
    } else if is(&p, "Cloudflare_Malware") {
        servers("1.1.1.2", "1.0.0.2")
    } else if is(&p, "Cloudflare_Malware_Adult") {
        servers("1.1.1.3", "1.0.0.3")
    } else if is(&p, "Open_DNS") {
        servers("208.67.222.222", "208.67.220.220")
    } else if is(&p, "Quad9") {
        servers("9.9.9.9", "149.112.112.112")
    } else if is(&p, "AdGuard_Ads_Trackers") {
        servers("94.140.14.14", "94.140.15.15")
    } else if is(&p, "AdGuard_Ads_Trackers_Malware_Adult") {
        servers("94.140.14.15", "94.140.15.16")
    } else if is(&p, "dns0.eu_Open") {
        servers("193.110.81.254", "185.253.5.254")
    } else if is(&p, "dns0.eu_ZERO") {
        servers("193.110.81.9", "185.253.5.9")
    } else if is(&p, "dns0.eu_KIDS") {
        servers("193.110.81.1", "185.253.5.1")
    } else if is(&p, "Automatic (DHCP)") {
        Ok(DnsPlan::Automatic)
    } else {
        Err(lit("❌ Unknown DNS provider"))
    }
}

/// The `reg add` command of a theme mode: `dark` sets `AppsUseLightTheme` to 0,
/// `light` to 1; any other mode is `Invalid mode`.
pub fn theme_command(mode: &str) -> (r: Result<String, String>)
    ensures
        mode@ == "dark"@ ==> (r matches Ok(c) && c@
            == "reg add HKCU\\Software\\Microsoft\\Windows\\CurrentVersion\\Themes\\Personalize /v AppsUseLightTheme /t REG_DWORD /d 0 /f"@),
        mode@ == "light"@ ==> (r matches Ok(c) && c@
            == "reg add HKCU\\Software\\Microsoft\\Windows\\CurrentVersion\\Themes\\Personalize /v AppsUseLightTheme /t REG_DWORD /d 1 /f"@),
        mode@ != "dark"@ && mode@ != "light"@ ==> (r matches Err(e) && e@ == "Invalid mode"@),
{
    let m = lit(mode);
    proof {
        reveal_strlit("dark");
        reveal_strlit("light");
        assert("light"@.len() == 5);
        assert("dark"@.len() == 4);
        assert("light"@ != "dark"@);
    }
    if is(&m, "dark") {
        Ok(lit("reg add HKCU\\Software\\Microsoft\\Windows\\CurrentVersion\\Themes\\Personalize /v AppsUseLightTheme /t REG_DWORD /d 0 /f"))
    } else if is(&m, "light") {
        Ok(lit("reg add HKCU\\Software\\Microsoft\\Windows\\CurrentVersion\\Themes\\Personalize /v AppsUseLightTheme /t REG_DWORD /d 1 /f"))
    } else {
        Err(lit("Invalid mode"))
    }
}

/// The last line of `ls` that is not blank.
pub open spec fn last_nonblank(ls: Seq<Seq<char>>) -> Option<Seq<char>>
    decreases ls.len(),
{
    if ls.len() == 0 {
        None
    } else if trim(ls.last()).len() > 0 {
        Some(ls.last())
    } else {
        last_nonblank(ls.drop_last())
    }
}

/// Whether the taskbar is centered, from the output of the `TaskbarAl` probe:
/// its last non-blank line, trimmed, is `1` (no such line reads as `0`).
pub open spec fn centered(out: Seq<char>) -> bool {
    match last_nonblank(lines(out)) {
        Some(l) => trim(l) == "1"@,
        None => false,
    }
}

/// Whether the taskbar is centered, from the probe's output.
pub fn taskbar_centered(out: &str) -> (r: bool)
    ensures
        r == centered(out@),
{
    let ls = split_lines(&chars_of(out));
    let ghost lv = views(ls@);
    assert(lv.subrange(0, ls.len() as int) =~= lv);
    let mut i: usize = ls.len();
    while i > 0
        invariant
            i <= ls.len(),
            lv == views(ls@),
            lv == lines(out@),
            last_nonblank(lv) == last_nonblank(lv.subrange(0, i as int)),
        decreases i,
    {
        let t = trim_chars(&ls[i - 1]);
        assert(lv.subrange(0, i as int).last() == ls@[i - 1]@);
        assert(lv.subrange(0, i as int).drop_last() =~= lv.subrange(0, i - 1));
        if t.len() > 0 {
            let one = chars_of("1");
            proof {
                reveal_strlit("1");
            }
            return eq_chars(&t, &one);
        }
        i = i - 1;
    }
    assert(lv.subrange(0, 0) =~= Seq::<Seq<char>>::empty());
    false
}

fn eq_chars(a: &Vec<char>, b: &Vec<char>) -> (r: bool)
    ensures
        r == (a@ == b@),
{
    if a.len() != b.len() {
        return false;
    }
    let mut i: usize = 0;
    while i < a.len()
        invariant
            i <= a.len(),
            a.len() == b.len(),
            forall|j: int| 0 <= j < i ==> a@[j] == b@[j],
        decreases a.len() - i,
    {
        if a[i] != b[i] {
            return false;
        }
        i = i + 1;
    }
    assert(a@ =~= b@);
    true
}

/// The value of `TaskbarAl` and the alignment's name for centered or left.
pub fn taskbar_alignment(center: bool) -> (r: (u32, String))
    ensures
        r.0 == if center { 1u32 } else { 0u32 },
        r.1@ == if center { "Center"@ } else { "Left"@ },
{
    if center {
        (1, lit("Center"))
    } else {
        (0, lit("Left"))
    }
}

/// Whether `winget list --id <id> -e` found the package: it exited successfully
/// and did not say `no installed package` (in any case).
pub fn winget_listed(success: bool, stdout: &[u8]) -> (r: bool)
    ensures
        r == (success && !has_sub(lowercase(lossy_text(stdout@)), "no installed package"@)),
{
    let low = to_lowercase(lossy(stdout).as_str());
    let found = contains(&chars_of(low.as_str()), &chars_of("no installed package"));
    success && !found
}

/// The features behind File Explorer's tabs, by feature id.
pub fn explorer_tab_features() -> (r: Vec<u32>)
    ensures
        r@ == seq![37634385u32, 39145991u32, 36354489u32],
{
    vec![37634385, 39145991, 36354489]
}

/// The registry key (under `HKLM`) that overrides feature `id`.
pub fn override_key_path(id: u32) -> (r: String)
    ensures
        r@ == "SYSTEM\\CurrentControlSet\\Control\\FeatureManagement\\Overrides\\4\\"@ + decimal(id as nat),
{
    concat2(
        "SYSTEM\\CurrentControlSet\\Control\\FeatureManagement\\Overrides\\4\\",
        u64_text(id as u64).as_str(),
    )
}

/// `EnabledState` and `EnabledStateOptions` of an override: 2 and 0 turn a
/// feature on, 1 and 1 turn it off.
pub fn override_values(enabled: bool) -> (r: (u32, u32))
    ensures
        r == if enabled { (2u32, 0u32) } else { (1u32, 1u32) },
{
    if enabled {
        (2, 0)
    } else {
        (1, 1)
    }
}

/// What writing the override of feature `id` reports.
pub fn override_written(id: u32, enabled: bool) -> (r: String)
    ensures
        r@ == "Feature "@ + decimal(id as nat) + " -> registry updated (EnabledState="@ + decimal(
            if enabled { 2nat } else { 1nat },
        ) + ")"@,
{
    let (state, _) = override_values(enabled);
    let mut r = concat3("Feature ", u64_text(id as u64).as_str(), " -> registry updated (EnabledState=");
    r.append(u64_text(state as u64).as_str());
    r.append(")");
    r
}

/// How many of the overrides are known, and how many of them are on (state 2).
pub open spec fn known_on(states: Seq<Option<u32>>) -> (nat, nat)
    decreases states.len(),
{
    if states.len() == 0 {
        (0, 0)
    } else {
        let (k, e) = known_on(states.drop_last());
        match states.last() {
            Some(v) => (k + 1, if v == 2 { e + 1 } else { e }),
            None => (k, e),
        }
    }
}

/// Whether toggling the tabs turns them off: some override is known and at
/// least half of the known ones are on. With none known, the tabs are turned on.
pub open spec fn tabs_turn_off(states: Seq<Option<u32>>) -> bool {
    let (k, e) = known_on(states);
    k > 0 && 2 * e >= k
}

/// Whether toggling the tabs turns them off, from the `EnabledState` of each
/// override (`None` where it could not be read).
pub fn tabs_should_disable(states: &Vec<Option<u32>>) -> (r: bool)
    ensures
        r == tabs_turn_off(states@),
{
    let mut known: usize = 0;
    let mut on: usize = 0;
    let mut i: usize = 0;
    while i < states.len()
        invariant
            i <= states.len(),
            (known as nat, on as nat) == known_on(states@.subrange(0, i as int)),
            on <= known <= i,
        decreases states.len() - i,
    {
        assert(states@.subrange(0, i + 1).drop_last() =~= states@.subrange(0, i as int));
        match states[i] {
            Some(v) => {
                known = known + 1;
                if v == 2 {
                    on = on + 1;
                }
            },
            None => {},
        }
        i = i + 1;
    }
    assert(states@.subrange(0, states.len() as int) =~= states@);
    known > 0 && on >= known - on
}

/// The report line of one override write.
pub open spec fn write_line(id: u32, r: Result<String, String>) -> Seq<char> {
    match r {
        Ok(s) => "OK: "@ + s@ + "\n"@,
        Err(e) => "ERR: feature "@ + decimal(id as nat) + " -> "@ + e@ + "\n"@,
    }
}

/// The line about restarting Explorer.
pub open spec fn restart_line(r: Result<String, String>) -> Seq<char> {
    match r {
        Ok(m) => m@ + "\n"@,
        Err(e) => "Warning: automatic Explorer restart failed: "@ + e@ + "\n"@,
    }
}

/// The lines of all override writes, in order.
pub open spec fn write_lines(w: Seq<(u32, Result<String, String>)>) -> Seq<char>
    decreases w.len(),
{
    if w.len() == 0 {
        seq![]
    } else {
        write_lines(w.drop_last()) + write_line(w.last().0, w.last().1)
    }
}

/// Whether any of the writes failed.
pub open spec fn any_failed<T>(w: Seq<(u32, Result<T, String>)>) -> bool {
    exists|i: int| 0 <= i < w.len() && w[i].1 is Err
}

fn restart_text(restart: &Result<String, String>) -> (r: String)
    ensures
        r@ == restart_line(*restart),
{
    match restart {
        Ok(m) => concat2(m.as_str(), "\n"),
        Err(e) => concat3("Warning: automatic Explorer restart failed: ", e.as_str(), "\n"),
    }
}

/// The report of turning the tabs on or off: a line per feature, a note, the
/// line about restarting Explorer; an error when any write failed.
pub fn tabs_report(writes: &Vec<(u32, Result<String, String>)>, restart: &Result<String, String>) -> (r: Result<String, String>)
    ensures
        ({
            let text = write_lines(writes@)
                + "Note: Explorer may need to be restarted or the system rebooted for changes to take effect.\n"@
                + restart_line(*restart);
            &&& r is Err <==> any_failed(writes@)
            &&& (r matches Ok(t) ==> t@ == text)
            &&& (r matches Err(t) ==> t@ == text)
        }),
{
    let mut out = String::new();
    let mut failed = false;
    let mut i: usize = 0;
    while i < writes.len()
        invariant
            i <= writes.len(),
            out@ == write_lines(writes@.subrange(0, i as int)),
            failed == any_failed(writes@.subrange(0, i as int)),
        decreases writes.len() - i,
    {
        assert(writes@.subrange(0, i + 1).drop_last() =~= writes@.subrange(0, i as int));
        let ghost before = out@;
        let (id, res) = (writes[i].0, &writes[i].1);
        match res {
            Ok(s) => {
                out.append("OK: ");
                out.append(s.as_str());
                out.append("\n");
            },
            Err(e) => {
                failed = true;
                out.append("ERR: feature ");
                out.append(u64_text(id as u64).as_str());
                out.append(" -> ");
                out.append(e.as_str());
                out.append("\n");
            },
        }
        assert(out@ =~= before + write_line(writes@[i as int].0, writes@[i as int].1));
        proof {
            let w = writes@.subrange(0, i + 1);
            if failed {
                if writes@[i as int].1 is Err {
                    assert(w[i as int].1 is Err);
                } else {
                    let j = choose|j: int| 0 <= j < i && writes@.subrange(0, i as int)[j].1 is Err;
                    assert(w[j].1 is Err);
                }
            } else {
                assert forall|j: int| 0 <= j < w.len() implies !(w[j].1 is Err) by {
                    if j < i {
                        assert(w[j] == writes@.subrange(0, i as int)[j]);
                    }
                }
            }
        }
        i = i + 1;
    }
    assert(writes@.subrange(0, writes.len() as int) =~= writes@);
    out.append("Note: Explorer may need to be restarted or the system rebooted for changes to take effect.\n");
    out.append(restart_text(restart).as_str());
    if failed {
        Err(out)
    } else {
        Ok(out)
    }
}

/// The report line of one removed override.
pub open spec fn removed_line(id: u32, r: Result<(), String>) -> Seq<char> {
    match r {
        Ok(_) => "Removed override key for "@ + decimal(id as nat) + "\n"@,
        Err(e) => "Failed to remove "@ + decimal(id as nat) + ": "@ + e@ + "\n"@,
    }
}

/// The lines of all override removals, in order.
pub open spec fn removed_lines(w: Seq<(u32, Result<(), String>)>) -> Seq<char>
    decreases w.len(),
{
    if w.len() == 0 {
        seq![]
    } else {
        removed_lines(w.drop_last()) + removed_line(w.last().0, w.last().1)
    }
}

/// The report of removing the overrides: a line per feature, a note, the line
/// about restarting Explorer; an error when any removal failed.
pub fn overrides_removed_report(removals: &Vec<(u32, Result<(), String>)>, restart: &Result<String, String>) -> (r: Result<String, String>)
    ensures
        ({
            let text = removed_lines(removals@)
                + "Note: some changes may be restored by Task Scheduler / management agents; reboot recommended.\n"@
                + restart_line(*restart);
            &&& r is Err <==> any_failed(removals@)
            &&& (r matches Ok(t) ==> t@ == text)
            &&& (r matches Err(t) ==> t@ == text)
        }),
{
    let mut out = String::new();
    let mut failed = false;
    let mut i: usize = 0;
    while i < removals.len()
        invariant
            i <= removals.len(),
            out@ == removed_lines(removals@.subrange(0, i as int)),
            failed == any_failed(removals@.subrange(0, i as int)),
        decreases removals.len() - i,
    {
        assert(removals@.subrange(0, i + 1).drop_last() =~= removals@.subrange(0, i as int));
        let ghost before = out@;
        let id = removals[i].0;
        match &removals[i].1 {
            Ok(_) => {
                out.append("Removed override key for ");
                out.append(u64_text(id as u64).as_str());
                out.append("\n");
            },
            Err(e) => {
                failed = true;
                out.append("Failed to remove ");
                out.append(u64_text(id as u64).as_str());
                out.append(": ");
                out.append(e.as_str());
                out.append("\n");
            },
        }
        assert(out@ =~= before + removed_line(removals@[i as int].0, removals@[i as int].1));
        proof {
            let w = removals@.subrange(0, i + 1);
            if failed {
                if removals@[i as int].1 is Err {
                    assert(w[i as int].1 is Err);
                } else {
                    let j = choose|j: int| 0 <= j < i && removals@.subrange(0, i as int)[j].1 is Err;
                    assert(w[j].1 is Err);
                }
            } else {
                assert forall|j: int| 0 <= j < w.len() implies !(w[j].1 is Err) by {
                    if j < i {
                        assert(w[j] == removals@.subrange(0, i as int)[j]);
                    }
                }
            }
        }
        i = i + 1;
    }
    assert(removals@.subrange(0, removals.len() as int) =~= removals@);
    out.append("Note: some changes may be restored by Task Scheduler / management agents; reboot recommended.\n");
    out.append(restart_text(restart).as_str());
    if failed {
        Err(out)
    } else {
        Ok(out)
    }
}

/// What restarting Explorer reports: the `taskkill` could not be run, or the new
/// `explorer.exe` could not be started, or it was restarted.
pub fn explorer_restart_outcome(kill: Result<(), String>, start: Result<(), String>) -> (r: Result<String, String>)
    ensures
        kill matches Err(e) ==> (r matches Err(m) && m@ == "Failed to run taskkill for explorer: "@ + e@),
        kill is Ok ==> (start matches Err(e) ==> (r matches Err(m) && m@ == "Failed to start explorer.exe: "@ + e@)),
        kill is Ok && start is Ok ==> (r matches Ok(m) && m@ == "Explorer restarted (taskkill + explorer start)."@),
{
    match kill {
        Err(e) => Err(concat2("Failed to run taskkill for explorer: ", e.as_str())),
        Ok(_) => match start {
            Err(e) => Err(concat2("Failed to start explorer.exe: ", e.as_str())),
            Ok(_) => Ok(lit("Explorer restarted (taskkill + explorer start).")),
        },
    }
}

/// The trimmed text of a stream.
pub open spec fn trimmed(b: Seq<u8>) -> Seq<char> {
    trim(lossy_text(b))
}

fn trimmed_text(b: &[u8]) -> (r: String)
    ensures
        r@ == trimmed(b@),
{
    string_of(&trim_chars(&chars_of(lossy(b).as_str())))
}

/// What a script run reports: on success its output, or its error stream when
/// the output is blank; on failure its error stream, or its output when that is
/// blank (each trimmed).
pub fn script_outcome(o: &ProcessOutput) -> (r: Result<String, String>)
    ensures
        o.success && trimmed(o.stdout@).len() > 0 ==> (r matches Ok(t) && t@ == trimmed(o.stdout@)),
        o.success && trimmed(o.stdout@).len() == 0 ==> (r matches Ok(t) && t@ == trimmed(o.stderr@)),
        !o.success && trimmed(o.stderr@).len() > 0 ==> (r matches Err(t) && t@ == trimmed(o.stderr@)),
        !o.success && trimmed(o.stderr@).len() == 0 ==> (r matches Err(t) && t@ == trimmed(o.stdout@)),
{
    let out = trimmed_text(o.stdout.as_slice());
    let err = trimmed_text(o.stderr.as_slice());
    if o.success {
        if !out.as_str().is_empty() {
            Ok(out)
        } else {
            Ok(err)
        }
    } else if !err.as_str().is_empty() {
        Err(err)
    } else {
        Err(out)
    }
}

/// The PowerShell argument for a boolean setting.
pub fn bool_arg(b: bool) -> (r: String)
    ensures
        r@ == if b { "True"@ } else { "False"@ },
{
    if b {
        lit("True")
    } else {
        lit("False")
    }
}

/// What the first try (with `powershell`) of the file-extension script decides:
/// a result, or `None` when it is tried again with `pwsh`.
pub open spec fn extensions_first(first: Result<ProcessOutput, String>) -> Option<Result<Seq<char>, Seq<char>>> {
    match first {
        Ok(o) => {
            let out = trimmed(o.stdout@);
            let err = trimmed(o.stderr@);
            if o.success {
                if out.len() > 0 {
                    Some(Ok(out))
                } else if err.len() > 0 {
                    Some(Ok(err))
                } else {
                    Some(Ok("OK"@))
                }
            } else if err.len() > 0 {
                Some(Err(err))
            } else if out.len() > 0 {
                Some(Err(out))
            } else {
                None
            }
        },
        Err(_) => None,
    }
}

/// The view of a text result.
pub open spec fn res_view(r: Result<String, String>) -> Result<Seq<char>, Seq<char>> {
    match r {
        Ok(t) => Ok(t@),
        Err(t) => Err(t@),
    }
}

/// The result of the first try of the file-extension script, or `None` when it
/// is tried again with `pwsh`.
pub fn extensions_first_outcome(first: &Result<ProcessOutput, String>) -> (r: Option<Result<String, String>>)
    ensures
        match r {
            Some(x) => extensions_first(*first) == Some(res_view(x)),
            None => extensions_first(*first) is None,
        },
{
    match first {
        Ok(o) => {
            let out = trimmed_text(o.stdout.as_slice());
            let err = trimmed_text(o.stderr.as_slice());
            if o.success {
                if !out.as_str().is_empty() {
                    Some(Ok(out))
                } else if !err.as_str().is_empty() {
                    Some(Ok(err))
                } else {
                    Some(Ok(lit("OK")))
                }
            } else if !err.as_str().is_empty() {
                Some(Err(err))
            } else if !out.as_str().is_empty() {
                Some(Err(out))
            } else {
                None
            }
        },
        Err(_) => None,
    }
}

/// The result after the second try with `pwsh`; `first_error` is the error of
/// starting `powershell`, if that is how the first try failed.
pub open spec fn extensions_second(first_error: Option<Seq<char>>, second: Result<ProcessOutput, String>) -> Result<Seq<char>, Seq<char>> {
    match second {
        Ok(o) => if o.success {
            let out = trimmed(o.stdout@);
            Ok(if out.len() > 0 { out } else { "OK"@ })
        } else {
            let err = trimmed(o.stderr@);
            match first_error {
                None => Err("powershell failed and pwsh failed: "@ + err),
                Some(e) => Err("powershell spawn error: "@ + e + "; pwsh failed: "@ + err),
            }
        },
        Err(e2) => match first_error {
            None => Err("powershell failed and pwsh spawn error: "@ + e2@),
            Some(e) => Err("powershell spawn error: "@ + e + "; pwsh spawn error: "@ + e2@),
        },
    }
}

/// The result after the second try of the file-extension script.
pub fn extensions_second_outcome(first_error: Option<String>, second: &Result<ProcessOutput, String>) -> (r: Result<String, String>)
    ensures
        res_view(r) == extensions_second(
            match first_error {
                Some(e) => Some(e@),
                None => None,
            },
            *second,
        ),
{
    match second {
        Ok(o) => {
            if o.success {
                let out = trimmed_text(o.stdout.as_slice());
                if !out.as_str().is_empty() {
                    Ok(out)
                } else {
                    Ok(lit("OK"))
                }
            } else {
                let err = trimmed_text(o.stderr.as_slice());
                match first_error {
                    None => Err(concat2("powershell failed and pwsh failed: ", err.as_str())),
                    Some(e) => {
                        let mut m = concat3("powershell spawn error: ", e.as_str(), "; pwsh failed: ");
                        m.append(err.as_str());
                        Err(m)
                    },
                }
            }
        },
        Err(e2) => match first_error {
            None => Err(concat2("powershell failed and pwsh spawn error: ", e2.as_str())),
            Some(e) => {
                let mut m = concat3("powershell spawn error: ", e.as_str(), "; pwsh spawn error: ");
                m.append(e2.as_str());
                Err(m)
            },
        },
    }
}

/// A line that the Windows Update reset wrote to its error stream, as it is
/// passed on.
pub fn update_reset_error_line(line: &str) -> (r: String)
    ensures
        r@ == "ERR: "@ + line@,
{
    concat2("ERR: ", line)
}

/// The last message of the Windows Update reset: its exit code, or -1.
pub fn update_reset_exit_line(code: Option<i32>) -> (r: String)
    ensures
        r@ == "PROCESS_EXIT:"@ + crate::text::int_decimal(
            match code {
                Some(c) => c as int,
                None => -1,
            },
        ),
{
    let c: i32 = match code {
        Some(c) => c,
        None => -1,
    };
    concat2("PROCESS_EXIT:", crate::text::i32_text(c).as_str())
}

/// `s` quoted for a single-quoted PowerShell string: each `'` doubled.
pub open spec fn ps_single(s: Seq<char>) -> Seq<char> {
    crate::text::replace_char(s, '\'', seq!['\'', '\''])
}

/// `s` quoted for a single-quoted PowerShell string.
pub fn ps_escape_single_quotes(s: &str) -> (r: String)
    ensures
        r@ == ps_single(s@),
{
    let q = vec!['\'', '\''];
    string_of(&crate::text::replace_all_char(&chars_of(s), '\'', &q))
}

/// The command that the elevated PowerShell runs: the script at `ps1`, all of
/// its streams written to the file `out`.
pub open spec fn elevated_inner(ps1: Seq<char>, out: Seq<char>) -> Seq<char> {
    "& '"@ + ps_single(ps1) + "' *>&1 | Out-File -FilePath '"@ + ps_single(out)
        + "' -Encoding utf8; exit $LASTEXITCODE"@
}

/// The command that starts an elevated, hidden PowerShell on `inner` (its double
/// quotes escaped with a backtick), waits for it and exits with its code.
pub open spec fn elevated_outer(inner: Seq<char>) -> Seq<char> {
    "$cmd = \""@ + crate::text::replace_char(inner, '"', "`\""@)
        + "\"; $p = Start-Process -FilePath 'powershell.exe' -Verb RunAs -WindowStyle Hidden -Wait -PassThru -ArgumentList @('-NoProfile','-ExecutionPolicy','Bypass','-Command',$cmd); exit $p.ExitCode"@
}

/// The command that runs the script at `ps1` elevated and captures its output
/// in the file `out`.
pub fn elevated_command(ps1: &str, out: &str) -> (r: String)
    ensures
        r@ == elevated_outer(elevated_inner(ps1@, out@)),
{
    let mut inner = concat3("& '", ps_escape_single_quotes(ps1).as_str(), "' *>&1 | Out-File -FilePath '");
    inner.append(ps_escape_single_quotes(out).as_str());
    inner.append("' -Encoding utf8; exit $LASTEXITCODE");
    let quoted = string_of(&crate::text::replace_all_char(&chars_of(inner.as_str()), '"', &chars_of("`\"")));
    let mut r = concat2("$cmd = \"", quoted.as_str());
    r.append("\"; $p = Start-Process -FilePath 'powershell.exe' -Verb RunAs -WindowStyle Hidden -Wait -PassThru -ArgumentList @('-NoProfile','-ExecutionPolicy','Bypass','-Command',$cmd); exit $p.ExitCode");
    r
}

/// What an elevated run reports: the captured file when it is not blank; else
/// the outer process's streams, or a word on its exit when they are blank.
pub open spec fn elevated_text(file_log: Seq<char>, o: ProcessOutput, status: Seq<char>) -> Seq<char> {
    let out = lossy_text(o.stdout@);
    let err = lossy_text(o.stderr@);
    if trim(file_log).len() > 0 {
        file_log
    } else if trim(out).len() == 0 && trim(err).len() == 0 {
        if o.success {
            "Done (no output)."@
        } else {
            "Operation failed (exit="@ + status + ")."@
        }
    } else {
        (if trim(out).len() == 0 { seq![] } else { out }) + (if trim(out).len() > 0 && trim(err).len() > 0 {
            "\n"@
        } else {
            seq![]
        }) + (if trim(err).len() == 0 { seq![] } else { err })
    }
}

/// What an elevated run reports; `status` is how the exit status prints.
pub fn elevated_result(file_log: &str, o: &ProcessOutput, status: &str) -> (r: String)
    ensures
        r@ == elevated_text(file_log@, *o, status@),
{
    if trim_chars(&chars_of(file_log)).len() > 0 {
        return lit(file_log);
    }
    let out = lossy(o.stdout.as_slice());
    let err = lossy(o.stderr.as_slice());
    let out_blank = trim_chars(&chars_of(out.as_str())).len() == 0;
    let err_blank = trim_chars(&chars_of(err.as_str())).len() == 0;
    if out_blank && err_blank {
        if o.success {
            lit("Done (no output).")
        } else {
            concat3("Operation failed (exit=", status, ").")
        }
    } else {
        let mut r = String::new();
        if !out_blank {
            r.append(out.as_str());
        }
        if !out_blank && !err_blank {
            r.append("\n");
        }
        if !err_blank {
            r.append(err.as_str());
        }
        proof {
            reveal_strlit("\n");
        }
        assert(r@ =~= (if out_blank { seq![] } else { out@ }) + (if !out_blank && !err_blank { "\n"@ } else { seq![] })
            + (if err_blank { seq![] } else { err@ }));
        r
    }
}

/// The registry key that selects the classic context menu.
pub open spec fn classic_menu_key() -> Seq<char> {
    "HKCU\\Software\\Classes\\CLSID\\{86ca1aa0-34aa-4e8b-a509-50c905bae2a2}"@
}

/// The `reg` arguments that switch the context menu: with the classic menu's key
/// present it is deleted (back to the Windows 11 menu), else it is added.
pub fn context_menu_switch_args(classic: bool) -> (r: Vec<String>)
    ensures
        classic ==> r@.map_values(|s: String| s@) == seq!["delete"@, classic_menu_key(), "/f"@],
        !classic ==> r@.map_values(|s: String| s@) == seq![
            "add"@,
            classic_menu_key() + "\\InprocServer32"@,
            "/ve"@,
            "/t"@,
            "REG_SZ"@,
            "/d"@,
            ""@,
            "/f"@,
        ],
{
    let key = lit("HKCU\\Software\\Classes\\CLSID\\{86ca1aa0-34aa-4e8b-a509-50c905bae2a2}");
    if classic {
        let r = vec![lit("delete"), key, lit("/f")];
        assert(r@.map_values(|s: String| s@) =~= seq!["delete"@, classic_menu_key(), "/f"@]);
        r
    } else {
        let r = vec![
            lit("add"),
            concat2(key.as_str(), "\\InprocServer32"),
            lit("/ve"),
            lit("/t"),
            lit("REG_SZ"),
            lit("/d"),
            lit(""),
            lit("/f"),
        ];
        assert(r@.map_values(|s: String| s@) =~= seq![
            "add"@,
            classic_menu_key() + "\\InprocServer32"@,
            "/ve"@,
            "/t"@,
            "REG_SZ"@,
            "/d"@,
            ""@,
            "/f"@,
        ]);
        r
    }
}

/// What switching the context menu reports: the `reg` run could not start, or it
/// failed (its error stream), or the switch and the Explorer restart.
pub fn context_menu_outcome(classic: bool, run: &Result<ProcessOutput, String>) -> (r: String)
    ensures
        run matches Err(e) ==> r@ == "Error: "@ + e@,
        run matches Ok(o) ==> (!o.success ==> r@ == lossy_text(o.stderr@)),
        run matches Ok(o) ==> (o.success ==> r@ == (if classic {
            "✅ Switched to Windows 11 context menu.\n"@
        } else {
            "✅ Switched to Classic context menu.\n"@
        }) + "🔄 Explorer restarted. Changes applied instantly!"@),
{
    match run {
        Err(e) => concat2("Error: ", e.as_str()),
        Ok(o) => {
            if !o.success {
                lossy(o.stderr.as_slice())
            } else if classic {
                concat2("✅ Switched to Windows 11 context menu.\n", "🔄 Explorer restarted. Changes applied instantly!")
            } else {
                concat2("✅ Switched to Classic context menu.\n", "🔄 Explorer restarted. Changes applied instantly!")
            }
        },
    }
}

/// What cleaning the temporary folders reports: done, or done with the warnings
/// it printed.
pub fn temp_clean_outcome(stdout: &[u8]) -> (r: String)
    ensures
        trimmed(stdout@).len() == 0 ==> r@ == "Temporary files cleaned successfully."@,
        trimmed(stdout@).len() > 0 ==> r@ == "Temporary files cleaned with warnings:\n"@ + trimmed(stdout@),
{
    let out = trimmed_text(stdout);
    if out.as_str().is_empty() {
        lit("Temporary files cleaned successfully.")
    } else {
        concat2("Temporary files cleaned with warnings:\n", out.as_str())
    }
}

/// What emptying the Recycle Bin reports: the items it deleted, or that there
/// was nothing it could delete.
pub fn recycle_bin_outcome(stdout: &[u8]) -> (r: String)
    ensures
        trimmed(stdout@).len() == 0 ==> r@ == "Recycle Bin is already empty or items were in use."@,
        trimmed(stdout@).len() > 0 ==> r@ == "Recycle Bin cleanup:\n"@ + lossy_text(stdout@),
{
    let out = lossy(stdout);
    if trim_chars(&chars_of(out.as_str())).len() == 0 {
        lit("Recycle Bin is already empty or items were in use.")
    } else {
        concat2("Recycle Bin cleanup:\n", out.as_str())
    }
}

/// The commands of a network reset, in order.
pub fn network_reset_commands() -> (r: Vec<String>)
    ensures
        r@.map_values(|s: String| s@) == seq![
            "netsh winsock reset"@,
            "ipconfig /flushdns"@,
            "ipconfig /release"@,
            "ipconfig /renew"@,
        ],
{
    let r = vec![lit("netsh winsock reset"), lit("ipconfig /flushdns"), lit("ipconfig /release"), lit("ipconfig /renew")];
    assert(r@.map_values(|s: String| s@) =~= seq![
        "netsh winsock reset"@,
        "ipconfig /flushdns"@,
        "ipconfig /release"@,
        "ipconfig /renew"@,
    ]);
    r
}

/// All outputs one after another.
pub open spec fn concat_all(outs: Seq<Seq<char>>) -> Seq<char>
    decreases outs.len(),
{
    if outs.len() == 0 {
        seq![]
    } else {
        concat_all(outs.drop_last()) + outs.last()
    }
}

/// What a network reset reports: the outputs of its commands and a note.
pub fn network_reset_report(outs: &Vec<String>) -> (r: String)
    ensures
        r@ == concat_all(outs@.map_values(|s: String| s@)) + "\nℹ For full effect, a restart might be required."@,
{
    let ghost ov = outs@.map_values(|s: String| s@);
    let mut r = String::new();
    let mut i: usize = 0;
    while i < outs.len()
        invariant
            i <= outs.len(),
            ov == outs@.map_values(|s: String| s@),
            r@ == concat_all(ov.subrange(0, i as int)),
        decreases outs.len() - i,
    {
        assert(ov.subrange(0, i + 1).drop_last() =~= ov.subrange(0, i as int));
        r.append(outs[i].as_str());
        i = i + 1;
    }
    assert(ov.subrange(0, outs.len() as int) =~= ov);
    r.append("\nℹ For full effect, a restart might be required.");
    r
}

/// Whether the Windows edition already includes the Group Policy Editor.
pub open spec fn edition_has_gpedit(edition: Seq<char>) -> bool {
    has_sub(edition, "Pro"@) || has_sub(edition, "Enterprise"@) || has_sub(edition, "Education"@) || has_sub(
        edition,
        "Server"@,
    ) || has_sub(edition, "IoTEnterprise"@)
}

/// Whether the Group Policy Editor must be activated, and if not, what is said:
/// it takes Administrator rights; it is installed already; or the edition
/// includes it. `None` means a Home edition on which it is activated.
pub fn gpedit_plan(elevated: bool, installed: bool, edition: &str) -> (r: Option<String>)
    ensures
        !elevated ==> (r matches Some(m) && m@
            == "❌ ERROR: This operation requires Administrator rights.\n\nPlease run the application as Administrator."@),
        elevated && installed ==> (r matches Some(m) && m@
            == "✅ Group Policy Editor is already installed and available on this system.\n\nNo action needed."@),
        elevated && !installed && edition_has_gpedit(edition@) ==> (r matches Some(m) && m@
            == "✅ Not needed.\n\nGroup Policy Editor (gpedit.msc) is already included in your edition: "@ + edition@
            + "\n\nYou can open it directly with Win + R → gpedit.msc"@),
        elevated && !installed && !edition_has_gpedit(edition@) ==> r is None,
{
    if !elevated {
        return Some(lit("❌ ERROR: This operation requires Administrator rights.\n\nPlease run the application as Administrator."));
    }
    if installed {
        return Some(lit("✅ Group Policy Editor is already installed and available on this system.\n\nNo action needed."));
    }
    let e = chars_of(edition);
    if contains(&e, &chars_of("Pro")) || contains(&e, &chars_of("Enterprise")) || contains(&e, &chars_of("Education"))
        || contains(&e, &chars_of("Server")) || contains(&e, &chars_of("IoTEnterprise")) {
        let mut m = concat2("✅ Not needed.\n\nGroup Policy Editor (gpedit.msc) is already included in your edition: ", edition);
        m.append("\n\nYou can open it directly with Win + R → gpedit.msc");
        return Some(m);
    }
    None
}

/// The two commands that add the Group Policy packages on a Home edition.
pub fn gpedit_commands() -> (r: (String, String))
    ensures
        r.0@ == "cmd /c \"FOR %%F IN (\"%SystemRoot%\\servicing\\Packages\\Microsoft-Windows-GroupPolicy-ClientTools-Package~*.mum\") DO dism /online /norestart /add-package:\"%F\""@,
        r.1@ == "cmd /c \"FOR %%F IN (\"%SystemRoot%\\servicing\\Packages\\Microsoft-Windows-GroupPolicy-ClientExtensions-Package~*.mum\") DO dism /online /norestart /add-package:\"%F\""@,
{
    (
        lit("cmd /c \"FOR %%F IN (\"%SystemRoot%\\servicing\\Packages\\Microsoft-Windows-GroupPolicy-ClientTools-Package~*.mum\") DO dism /online /norestart /add-package:\"%F\""),
        lit("cmd /c \"FOR %%F IN (\"%SystemRoot%\\servicing\\Packages\\Microsoft-Windows-GroupPolicy-ClientExtensions-Package~*.mum\") DO dism /online /norestart /add-package:\"%F\""),
    )
}

/// The activation log around the outputs of the two package commands.
pub open spec fn gpedit_log(out1: Seq<char>, out2: Seq<char>) -> Seq<char> {
    "🚀 Windows Home detected + gpedit.msc not found.\n"@ + "Starting automatic activation...\n\n"@
        + "This may take 30–90 seconds. Please wait...\n\n"@ + "→ Adding GroupPolicy-ClientTools package...\n"@ + out1
        + "\n\n"@ + "→ Adding GroupPolicy-ClientExtensions package...\n"@ + out2
        + "\n\n✅ SUCCESS: Group Policy Editor has been activated!\n"@ + "🔄 Please restart your computer now.\n"@
        + "After restart, press Win + R and type: gpedit.msc"@
}

/// The activation log around the outputs of the two package commands.
pub fn gpedit_activation_log(out1: &str, out2: &str) -> (r: String)
    ensures
        r@ == gpedit_log(out1@, out2@),
{
    let mut log = String::new();
    log.append("🚀 Windows Home detected + gpedit.msc not found.\n");
    log.append("Starting automatic activation...\n\n");
    log.append("This may take 30–90 seconds. Please wait...\n\n");
    log.append("→ Adding GroupPolicy-ClientTools package...\n");
    log.append(out1);
    log.append("\n\n");
    log.append("→ Adding GroupPolicy-ClientExtensions package...\n");
    log.append(out2);
    log.append("\n\n✅ SUCCESS: Group Policy Editor has been activated!\n");
    log.append("🔄 Please restart your computer now.\n");
    log.append("After restart, press Win + R and type: gpedit.msc");
    log
}

/// The SMB client settings that decide access to guest shares.
pub struct NetworkPolicyStatus {
    pub require_security_signature: Option<u32>,
    /// The policy value, or the legacy one when there is no policy value.
    pub allow_insecure_guest_auth: Option<u32>,
    pub allow_insecure_guest_auth_legacy: Option<u32>,
}

/// The status from the three values read: the policy location wins over the
/// legacy one.
pub fn network_status(require: Option<u32>, policies: Option<u32>, legacy: Option<u32>) -> (r: NetworkPolicyStatus)
    ensures
        r.require_security_signature == require,
        r.allow_insecure_guest_auth == if policies is Some { policies } else { legacy },
        r.allow_insecure_guest_auth_legacy == legacy,
{
    let guest = match policies {
        Some(v) => Some(v),
        None => legacy,
    };
    NetworkPolicyStatus {
        require_security_signature: require,
        allow_insecure_guest_auth: guest,
        allow_insecure_guest_auth_legacy: legacy,
    }
}

/// The lines of the steps that were carried out, each on its own line.
pub open spec fn step_lines(steps: Seq<(bool, Seq<char>)>) -> Seq<char>
    decreases steps.len(),
{
    if steps.len() == 0 {
        seq![]
    } else {
        let rest = step_lines(steps.drop_last());
        let (done, text) = steps.last();
        if !done {
            rest
        } else if rest.len() == 0 {
            text
        } else {
            rest + "\n"@ + text
        }
    }
}

/// The view of a list of steps.
pub open spec fn steps_view(v: Seq<(bool, String)>) -> Seq<(bool, Seq<char>)> {
    v.map_values(|p: (bool, String)| (p.0, p.1@))
}

fn steps_text(steps: &Vec<(bool, String)>) -> (r: String)
    ensures
        r@ == step_lines(steps_view(steps@)),
{
    let ghost sv = steps_view(steps@);
    let mut acc = String::new();
    let mut i: usize = 0;
    while i < steps.len()
        invariant
            i <= steps.len(),
            sv == steps_view(steps@),
            acc@ == step_lines(sv.subrange(0, i as int)),
        decreases steps.len() - i,
    {
        assert(sv.subrange(0, i + 1).drop_last() =~= sv.subrange(0, i as int));
        if steps[i].0 {
            if !acc.as_str().is_empty() {
                acc.append("\n");
            }
            acc.append(steps[i].1.as_str());
        }
        i = i + 1;
    }
    assert(sv.subrange(0, steps.len() as int) =~= sv);
    acc
}

/// What the guest-share compatibility fix reports, from which keys could be
/// opened and whether the Workstation service restarted.
pub fn network_fix_report(params: bool, policies: bool, legacy: bool, restarted: bool) -> (r: String)
    ensures
        r@ == "SUCCESS: Network Compatibility Fix fully implemented!\n\n"@ + step_lines(seq![
            (params, "✅ RequireSecuritySignature = 0"@),
            (policies, "✅ AllowInsecureGuestAuth (Policies) = 1"@),
            (legacy, "✅ AllowInsecureGuestAuth (legacy) = 1"@),
            (restarted, "🔄 Serviciul LanmanWorkstation a fost restartat"@),
            (!restarted, "⚠ Restart serviciu eșuat → recomand restart complet Windows"@),
        ])
            + "\n\nIMPORTANT NOTE:\n• gpedit.msc will still show \"Not Configured\" → this is NORMAL and that doesn't mean it doesn't work!!\n• The change works through the registry.\n• Test access to a guest share after restarting Windows.\n• If it still doesn't work: run in PowerShell: Get-SmbClientConfiguration | Select EnableInsecureGuestLogons"@,
{
    let steps = vec![
        (params, lit("✅ RequireSecuritySignature = 0")),
        (policies, lit("✅ AllowInsecureGuestAuth (Policies) = 1")),
        (legacy, lit("✅ AllowInsecureGuestAuth (legacy) = 1")),
        (restarted, lit("🔄 Serviciul LanmanWorkstation a fost restartat")),
        (!restarted, lit("⚠ Restart serviciu eșuat → recomand restart complet Windows")),
    ];
    assert(steps_view(steps@) =~= seq![
        (params, "✅ RequireSecuritySignature = 0"@),
        (policies, "✅ AllowInsecureGuestAuth (Policies) = 1"@),
        (legacy, "✅ AllowInsecureGuestAuth (legacy) = 1"@),
        (restarted, "🔄 Serviciul LanmanWorkstation a fost restartat"@),
        (!restarted, "⚠ Restart serviciu eșuat → recomand restart complet Windows"@),
    ]);
    let mut r = concat2("SUCCESS: Network Compatibility Fix fully implemented!\n\n", steps_text(&steps).as_str());
    r.append("\n\nIMPORTANT NOTE:\n• gpedit.msc will still show \"Not Configured\" → this is NORMAL and that doesn't mean it doesn't work!!\n• The change works through the registry.\n• Test access to a guest share after restarting Windows.\n• If it still doesn't work: run in PowerShell: Get-SmbClientConfiguration | Select EnableInsecureGuestLogons");
    r
}

/// What restoring the secure SMB defaults reports, from which keys could be
/// opened.
pub fn secure_defaults_report(params: bool, policies: bool, legacy: bool) -> (r: String)
    ensures
        r@ == "SUCCESS: Secure defaults restaurate!\n\n"@ + step_lines(seq![
            (params, "✅ RequireSecuritySignature restaurat la 1"@),
            (policies, "✅ AllowInsecureGuestAuth (Policies) șters"@),
            (legacy, "✅ AllowInsecureGuestAuth (legacy) șters"@),
        ]) + "\n\nRecomand restart complet Windows."@,
{
    let steps = vec![
        (params, lit("✅ RequireSecuritySignature restaurat la 1")),
        (policies, lit("✅ AllowInsecureGuestAuth (Policies) șters")),
        (legacy, lit("✅ AllowInsecureGuestAuth (legacy) șters")),
    ];
    assert(steps_view(steps@) =~= seq![
        (params, "✅ RequireSecuritySignature restaurat la 1"@),
        (policies, "✅ AllowInsecureGuestAuth (Policies) șters"@),
        (legacy, "✅ AllowInsecureGuestAuth (legacy) șters"@),
    ]);
    let mut r = concat2("SUCCESS: Secure defaults restaurate!\n\n", steps_text(&steps).as_str());
    r.append("\n\nRecomand restart complet Windows.");
    r
}

/// A registry text value, or `Unknown` when it could not be read.
pub fn value_or_unknown(v: Option<String>) -> (r: String)
    ensures
        v matches Some(x) ==> r@ == x@,
        v is None ==> r@ == "Unknown"@,
{
    match v {
        Some(x) => x,
        None => lit("Unknown"),
    }
}

/// What applying the Brave policies reports.
pub fn brave_outcome(run: &Result<ProcessOutput, String>) -> (r: String)
    ensures
        run matches Err(e) ==> r@ == "ERROR: Failed to spawn PowerShell: "@ + e@,
        run matches Ok(o) ==> (o.success && trim(lossy_text(o.stdout@)).len() == 0 ==> r@
            == "SUCCESS: Brave policies applied."@),
        run matches Ok(o) ==> (o.success && trim(lossy_text(o.stdout@)).len() > 0 ==> r@ == lossy_text(o.stdout@)),
        run matches Ok(o) ==> (!o.success && trimmed(o.stderr@).len() == 0 ==> r@
            == "ERROR: PowerShell exited with code "@ + crate::output::debug_code(o.code) + "."@),
        run matches Ok(o) ==> (!o.success && trimmed(o.stderr@).len() > 0 ==> r@ == "ERROR: "@ + trimmed(o.stderr@)),
{
    match run {
        Err(e) => concat2("ERROR: Failed to spawn PowerShell: ", e.as_str()),
        Ok(o) => {
            if o.success {
                let out = lossy(o.stdout.as_slice());
                if trim_chars(&chars_of(out.as_str())).len() == 0 {
                    lit("SUCCESS: Brave policies applied.")
                } else {
                    out
                }
            } else {
                let err = trimmed_text(o.stderr.as_slice());
                if err.as_str().is_empty() {
                    let code = match o.code {
                        Some(c) => concat3("Some(", crate::text::i32_text(c).as_str(), ")"),
                        None => lit("None"),
                    };
                    concat3("ERROR: PowerShell exited with code ", code.as_str(), ".")
                } else {
                    concat2("ERROR: ", err.as_str())
                }
            }
        },
    }
}

/// `s` with each `\r\n` turned into `\n`.
pub open spec fn crlf_to_lf(s: Seq<char>) -> Seq<char>
    decreases s.len(),
{
    if s.len() == 0 {
        seq![]
    } else if s.len() >= 2 && s[0] == '\r' && s[1] == '\n' {
        seq!['\n'] + crlf_to_lf(s.subrange(2, s.len() as int))
    } else {
        seq![s[0]] + crlf_to_lf(s.subrange(1, s.len() as int))
    }
}

proof fn lemma_crlf_step(s: Seq<char>, i: int)
    requires
        0 <= i < s.len(),
    ensures
        s.len() - i >= 2 && s[i] == '\r' && s[i + 1] == '\n' ==> crlf_to_lf(s.subrange(i, s.len() as int)) == seq!['\n']
            + crlf_to_lf(s.subrange(i + 2, s.len() as int)),
        !(s.len() - i >= 2 && s[i] == '\r' && s[i + 1] == '\n') ==> crlf_to_lf(s.subrange(i, s.len() as int)) == seq![
            s[i],
        ] + crlf_to_lf(s.subrange(i + 1, s.len() as int)),
{
    let t = s.subrange(i, s.len() as int);
    assert(t.subrange(2, t.len() as int) =~= s.subrange(i + 2, s.len() as int) || t.len() < 2);
    assert(t.subrange(1, t.len() as int) =~= s.subrange(i + 1, s.len() as int));
}

/// `s` with each `\r\n` turned into `\n`.
pub fn crlf_to_lf_text(s: &str) -> (r: String)
    ensures
        r@ == crlf_to_lf(s@),
{
    let cs = chars_of(s);
    let mut out: Vec<char> = Vec::new();
    assert(cs@.subrange(0, cs.len() as int) =~= cs@);
    assert(out@ + crlf_to_lf(cs@) =~= crlf_to_lf(cs@));
    let mut i: usize = 0;
    while i < cs.len()
        invariant
            i <= cs.len(),
            cs@ == s@,
            out@ + crlf_to_lf(cs@.subrange(i as int, cs.len() as int)) == crlf_to_lf(cs@),
        decreases cs.len() - i,
    {
        proof {
            lemma_crlf_step(cs@, i as int);
        }
        let ghost before = out@;
        if i + 1 < cs.len() && cs[i] == '\r' && cs[i + 1] == '\n' {
            out.push('\n');
            assert(before + crlf_to_lf(cs@.subrange(i as int, cs.len() as int)) =~= out@ + crlf_to_lf(
                cs@.subrange(i + 2, cs.len() as int),
            ));
            i = i + 2;
        } else {
            out.push(cs[i]);
            assert(before + crlf_to_lf(cs@.subrange(i as int, cs.len() as int)) =~= out@ + crlf_to_lf(
                cs@.subrange(i + 1, cs.len() as int),
            ));
            i = i + 1;
        }
    }
    assert(cs@.subrange(cs.len() as int, cs.len() as int) =~= Seq::<char>::empty());
    assert(out@ + Seq::<char>::empty() =~= out@);
    assert(cs@.subrange(0, cs.len() as int) =~= cs@);
    string_of(&out)
}

/// The script that runs `body` and appends all of its output to the file `log`.
pub open spec fn logged_script(body: Seq<char>, log: Seq<char>) -> Seq<char> {
    "\nSet-StrictMode -Version Latest\ntry {\n    & {\n        "@ + crlf_to_lf(body)
        + "\n    } 2>&1 | Out-File -FilePath \""@ + log + "\" -Encoding UTF8 -Append\n    exit $LASTEXITCODE\n} catch {\n    $_ | Out-String | Out-File -FilePath \""@
        + log + "\" -Encoding UTF8 -Append\n    exit 1\n}\n"@
}

/// The script that runs `body` and appends all of its output to the file `log`.
pub fn logged_script_text(body: &str, log: &str) -> (r: String)
    ensures
        r@ == logged_script(body@, log@),
{
    let mut r = lit("\nSet-StrictMode -Version Latest\ntry {\n    & {\n        ");
    r.append(crlf_to_lf_text(body).as_str());
    r.append("\n    } 2>&1 | Out-File -FilePath \"");
    r.append(log);
    r.append("\" -Encoding UTF8 -Append\n    exit $LASTEXITCODE\n} catch {\n    $_ | Out-String | Out-File -FilePath \"");
    r.append(log);
    r.append("\" -Encoding UTF8 -Append\n    exit 1\n}\n");
    r
}

/// The argument that makes PowerShell start the script at `path` elevated and
/// wait for it.
pub fn elevated_start_argument(path: &str) -> (r: String)
    ensures
        r@ == "-NoProfile -ExecutionPolicy Bypass -Command Start-Process powershell -ArgumentList '-NoProfile -ExecutionPolicy Bypass -File \""@
            + path@ + "\"' -Verb RunAs -Wait"@,
{
    concat3(
        "-NoProfile -ExecutionPolicy Bypass -Command Start-Process powershell -ArgumentList '-NoProfile -ExecutionPolicy Bypass -File \"",
        path,
        "\"' -Verb RunAs -Wait",
    )
}

/// What an elevated run with a log file reports: that it was attempted and
/// where its log is, or why it could not be run.
pub fn attempt_outcome(attempted: &str, failed: &str, result: &Result<String, String>) -> (r: String)
    ensures
        result matches Ok(p) ==> r@ == attempted@ + " See log: "@ + p@,
        result matches Err(e) ==> r@ == failed@ + ": "@ + e@,
{
    match result {
        Ok(p) => concat3(attempted, " See log: ", p.as_str()),
        Err(e) => concat3(failed, ": ", e.as_str()),
    }
}

/// The checks that verifying system integrity runs, in order, each a program
/// and its arguments.
pub fn integrity_checks() -> (r: Vec<(String, Vec<String>)>)
    ensures
        r@.len() == 4,
        r@[0].0@ == "DISM"@ && crate::order::texts(r@[0].1@) == seq!["/Online"@, "/Cleanup-Image"@, "/CheckHealth"@],
        r@[1].0@ == "DISM"@ && crate::order::texts(r@[1].1@) == seq!["/Online"@, "/Cleanup-Image"@, "/ScanHealth"@],
        r@[2].0@ == "DISM"@ && crate::order::texts(r@[2].1@) == seq!["/Online"@, "/Cleanup-Image"@, "/RestoreHealth"@],
        r@[3].0@ == "sfc"@ && crate::order::texts(r@[3].1@) == seq!["/scannow"@],
{
    let a = vec![lit("/Online"), lit("/Cleanup-Image"), lit("/CheckHealth")];
    let b = vec![lit("/Online"), lit("/Cleanup-Image"), lit("/ScanHealth")];
    let c = vec![lit("/Online"), lit("/Cleanup-Image"), lit("/RestoreHealth")];
    let d = vec![lit("/scannow")];
    assert(crate::order::texts(a@) =~= seq!["/Online"@, "/Cleanup-Image"@, "/CheckHealth"@]);
    assert(crate::order::texts(b@) =~= seq!["/Online"@, "/Cleanup-Image"@, "/ScanHealth"@]);
    assert(crate::order::texts(c@) =~= seq!["/Online"@, "/Cleanup-Image"@, "/RestoreHealth"@]);
    assert(crate::order::texts(d@) =~= seq!["/scannow"@]);
    vec![(lit("DISM"), a), (lit("DISM"), b), (lit("DISM"), c), (lit("sfc"), d)]
}

/// The text that the integrity check starts its log with.
pub fn integrity_header() -> (r: String)
    ensures
        r@ == "🔍 Starting system integrity verification...\n\nNote: For best results, run the app as Administrator.\n\n"@,
{
    lit("🔍 Starting system integrity verification...\n\nNote: For best results, run the app as Administrator.\n\n")
}

/// Which power timeouts a button turns off.
#[derive(Clone, Copy)]
pub enum PowerTimeout {
    Sleep,
    Disk,
    Monitor,
}

/// The `powercfg` commands that turn a timeout off, and the message reported.
pub fn power_timeout_commands(t: PowerTimeout) -> (r: (Vec<String>, String))
    ensures
        t is Sleep ==> crate::order::texts(r.0@) == seq![
            "powercfg /change standby-timeout-ac 0"@,
            "powercfg /change standby-timeout-dc 0"@,
            "powercfg /change hibernate-timeout-ac 0"@,
            "powercfg /change hibernate-timeout-dc 0"@,
        ] && r.1@ == "✅ Sleep & Hibernate disabled (AC + DC)"@,
        t is Disk ==> crate::order::texts(r.0@) == seq![
            "powercfg /change disk-timeout-ac 0"@,
            "powercfg /change disk-timeout-dc 0"@,
        ] && r.1@ == "✅ HDD/SSD turn off disabled (AC + DC)"@,
        t is Monitor ==> crate::order::texts(r.0@) == seq![
            "powercfg /change monitor-timeout-ac 0"@,
            "powercfg /change monitor-timeout-dc 0"@,
        ] && r.1@ == "✅ Monitor turn off disabled (AC + DC)"@,
{
    match t {
        PowerTimeout::Sleep => {
            let v = vec![
                lit("powercfg /change standby-timeout-ac 0"),
                lit("powercfg /change standby-timeout-dc 0"),
                lit("powercfg /change hibernate-timeout-ac 0"),
                lit("powercfg /change hibernate-timeout-dc 0"),
            ];
            assert(crate::order::texts(v@) =~= seq![
                "powercfg /change standby-timeout-ac 0"@,
                "powercfg /change standby-timeout-dc 0"@,
                "powercfg /change hibernate-timeout-ac 0"@,
                "powercfg /change hibernate-timeout-dc 0"@,
            ]);
            (v, lit("✅ Sleep & Hibernate disabled (AC + DC)"))
        },
        PowerTimeout::Disk => {
            let v = vec![lit("powercfg /change disk-timeout-ac 0"), lit("powercfg /change disk-timeout-dc 0")];
            assert(crate::order::texts(v@) =~= seq![
                "powercfg /change disk-timeout-ac 0"@,
                "powercfg /change disk-timeout-dc 0"@,
            ]);
            (v, lit("✅ HDD/SSD turn off disabled (AC + DC)"))
        },
        PowerTimeout::Monitor => {
            let v = vec![lit("powercfg /change monitor-timeout-ac 0"), lit("powercfg /change monitor-timeout-dc 0")];
            assert(crate::order::texts(v@) =~= seq![
                "powercfg /change monitor-timeout-ac 0"@,
                "powercfg /change monitor-timeout-dc 0"@,
            ]);
            (v, lit("✅ Monitor turn off disabled (AC + DC)"))
        },
    }
}

/// Toggling the tabs inverts a uniform state: when every feature is known to be
/// on they are turned off; when every known feature is off (or none is known)
/// they are turned on.
pub proof fn lemma_tabs_toggle_inverts(states: Seq<Option<u32>>)
    ensures
        states.len() > 0 && (forall|i: int| 0 <= i < states.len() ==> states[i] == Some(2u32)) ==> tabs_turn_off(states),
        (forall|i: int| 0 <= i < states.len() ==> states[i] != Some(2u32)) ==> !tabs_turn_off(states),
    decreases states.len(),
{
    if states.len() > 0 {
        let rest = states.drop_last();
        assert forall|i: int| 0 <= i < rest.len() implies rest[i] == states[i] by {}
        lemma_tabs_toggle_inverts(rest);
        lemma_known_on_bounds(rest);
        if forall|i: int| 0 <= i < states.len() ==> states[i] == Some(2u32) {
            assert(states[states.len() - 1] == Some(2u32));
            lemma_all_on_counts(states);
        }
        if forall|i: int| 0 <= i < states.len() ==> states[i] != Some(2u32) {
            lemma_none_on_counts(states);
        }
    }
}

proof fn lemma_known_on_bounds(states: Seq<Option<u32>>)
    ensures
        known_on(states).1 <= known_on(states).0,
    decreases states.len(),
{
    if states.len() > 0 {
        lemma_known_on_bounds(states.drop_last());
    }
}

proof fn lemma_all_on_counts(states: Seq<Option<u32>>)
    requires
        forall|i: int| 0 <= i < states.len() ==> states[i] == Some(2u32),
    ensures
        known_on(states).0 == states.len(),
        known_on(states).1 == states.len(),
    decreases states.len(),
{
    if states.len() > 0 {
        let rest = states.drop_last();
        assert forall|i: int| 0 <= i < rest.len() implies rest[i] == Some(2u32) by {
            assert(rest[i] == states[i]);
        }
        lemma_all_on_counts(rest);
        assert(states.last() == Some(2u32));
    }
}

proof fn lemma_none_on_counts(states: Seq<Option<u32>>)
    requires
        forall|i: int| 0 <= i < states.len() ==> states[i] != Some(2u32),
    ensures
        known_on(states).1 == 0,
    decreases states.len(),
{
    if states.len() > 0 {
        let rest = states.drop_last();
        assert forall|i: int| 0 <= i < rest.len() implies rest[i] != Some(2u32) by {
            assert(rest[i] == states[i]);
        }
        lemma_none_on_counts(rest);
        assert(states.last() != Some(2u32));
    }
}

} // verus!
