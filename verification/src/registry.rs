//! The registry values behind the feature switches of the preferences panel, how
//! `reg query` output is read back, and what each change reports.
use vstd::prelude::*;

use crate::text::{
    opt_view, chars_of, concat2, concat3, contains, has_prefix, has_sub, last_word, last_word_of, lines, lit,
    lowercase, ltrim, parse_i32, parse_i32_spec, split_lines, starts_with, string_of,
    to_lowercase, trim_start, views,
};

verus! {

/// The value that `reg query` prints for `name`: the last word of the first line
/// that starts (after white space) with `name` and has a word.
pub open spec fn reg_scan(ls: Seq<Seq<char>>, name: Seq<char>) -> Option<Seq<char>>
    decreases ls.len(),
{
    if ls.len() == 0 {
        None
    } else if has_prefix(ltrim(ls[0]), name) && last_word(ls[0]) is Some {
        last_word(ls[0])
    } else {
        reg_scan(ls.drop_first(), name)
    }
}

/// Reads the value named `name` out of `reg query <path> /v <name>` output; a
/// failed query gives nothing.
pub fn parse_reg_query(success: bool, stdout: &str, name: &str) -> (r: Option<String>)
    ensures
        r matches Some(v) ==> success && reg_scan(lines(stdout@), name@) == Some(v@),
        r is None ==> !success || reg_scan(lines(stdout@), name@) is None,
{
    if !success {
        return None;
    }
    let s = chars_of(stdout);
    let n = chars_of(name);
    let ls = split_lines(&s);
    let ghost lv = views(ls@);
    let mut i: usize = 0;
    assert(lv.subrange(0, lv.len() as int) =~= lv);
    while i < ls.len()
        invariant
            i <= ls.len(),
            success,
            lv == views(ls@),
            lv == lines(s@),
            s@ == stdout@,
            n@ == name@,
            reg_scan(lv, n@) == reg_scan(lv.subrange(i as int, lv.len() as int), n@),
        decreases ls.len() - i,
    {
        let ghost rest = lv.subrange(i as int, lv.len() as int);
        assert(rest[0] == ls@[i as int]@);
        let t = trim_start(&ls[i]);
        if starts_with(&t, &n) {
            let lw = last_word_of(&ls[i]);
            match lw {
                Some(w) => {
                    assert(last_word(rest[0]) == Some(w@));
                    assert(reg_scan(rest, n@) == Some(w@));
                    return Some(string_of(&w));
                },
                None => {
                    assert(last_word(rest[0]) is None);
                },
            }
        }
        assert(rest.drop_first() =~= lv.subrange(i + 1, lv.len() as int));
        i = i + 1;
    }
    None
}

/// How a registry value is read as a switch.
pub enum FlagRule {
    /// On when the number is greater than zero.
    Positive,
    /// On when the number is not zero.
    NonZero,
    /// On when the number equals the given one.
    Equals(i32),
}

/// Whether the number `n` reads as on under `rule`.
pub open spec fn rule_holds(rule: FlagRule, n: i32) -> bool {
    match rule {
        FlagRule::Positive => n > 0,
        FlagRule::NonZero => n != 0,
        FlagRule::Equals(k) => n == k,
    }
}

/// Reads a switch out of a registry value: nothing when there is no value or it
/// is not a number, else whether the number satisfies `rule`.
pub fn flag_from_value(v: Option<String>, rule: FlagRule) -> (r: Option<bool>)
    ensures
        r == match v {
            None => None,
            Some(s) => match parse_i32_spec(s@) {
                None => None,
                Some(n) => Some(rule_holds(rule, n)),
            },
        },
{
    match v {
        None => None,
        Some(s) => match parse_i32(&chars_of(s.as_str())) {
            None => None,
            Some(n) => Some(
                match rule {
                    FlagRule::Positive => n > 0,
                    FlagRule::NonZero => n != 0,
                    FlagRule::Equals(k) => n == k,
                },
            ),
        },
    }
}

/// The NumLock switch read from one `InitialKeyboardIndicators` value: on unless
/// the number is zero; a value that is no number is on unless it is `"0"`.
pub open spec fn numlock_of(v: Seq<char>) -> bool {
    match parse_i32_spec(v) {
        Some(n) => n != 0,
        None => v != seq!['0'],
    }
}

/// The NumLock switch: from the current user's value, else from the default
/// user's value, else unknown.
pub fn numlock_from_values(user: Option<String>, default_user: Option<String>) -> (r: Option<bool>)
    ensures
        r == match user {
            Some(v) => Some(numlock_of(v@)),
            None => match default_user {
                Some(v) => Some(numlock_of(v@)),
                None => None,
            },
        },
{
    match user {
        Some(v) => Some(numlock_value(&v)),
        None => match default_user {
            Some(v) => Some(numlock_value(&v)),
            None => None,
        },
    }
}

fn numlock_value(v: &String) -> (r: bool)
    ensures
        r == numlock_of(v@),
{
    let cs = chars_of(v.as_str());
    match parse_i32(&cs) {
        Some(n) => n != 0,
        None => {
            let zero = vec!['0'];
            assert(zero@ =~= seq!['0']);
            !(cs.len() == 1 && cs[0] == '0') || {
                assert(cs@ =~= seq!['0']);
                false
            }
        },
    }
}

} // verus!

verus! {

/// The switches of the Features section.
#[derive(Clone, Copy)]
pub enum Feature {
    MouseAccel,
    NumLock,
    TaskbarSearch,
    TaskbarWidgets,
    Snap,
    StickyKeys,
    TaskView,
    VerboseLogon,
}

/// One `reg add <path> /v <name> /t <kind> /d <data> /f`.
pub struct RegAdd {
    pub path: String,
    pub name: String,
    pub kind: String,
    pub data: String,
}

/// A registry write as plain values: path, value name, value type, data.
pub type RegAddModel = (Seq<char>, Seq<char>, Seq<char>, Seq<char>);

/// The plain values of the writes.
pub open spec fn adds_view(v: Seq<RegAdd>) -> Seq<RegAddModel> {
    v.map_values(|a: RegAdd| (a.path@, a.name@, a.kind@, a.data@))
}

pub open spec fn on_off(enabled: bool, on: Seq<char>, off: Seq<char>) -> Seq<char> {
    if enabled {
        on
    } else {
        off
    }
}

/// The registry writes that set `feature` to `enabled`.
pub open spec fn feature_adds(feature: Feature, enabled: bool) -> Seq<RegAddModel> {
    match feature {
        Feature::MouseAccel => seq![
            ("HKCU\\Control Panel\\Mouse"@, "MouseSpeed"@, "REG_SZ"@, on_off(enabled, "1"@, "0"@)),
            ("HKCU\\Control Panel\\Mouse"@, "MouseThreshold1"@, "REG_SZ"@, on_off(enabled, "6"@, "0"@)),
            ("HKCU\\Control Panel\\Mouse"@, "MouseThreshold2"@, "REG_SZ"@, on_off(enabled, "10"@, "0"@)),
        ],
        Feature::NumLock => seq![
            ("HKCU\\Control Panel\\Keyboard"@, "InitialKeyboardIndicators"@, "REG_SZ"@, on_off(enabled, "2"@, "0"@)),
            ("HKU\\.DEFAULT\\Control Panel\\Keyboard"@, "InitialKeyboardIndicators"@, "REG_SZ"@, on_off(enabled, "2"@, "0"@)),
        ],
        Feature::TaskbarSearch => seq![
            ("HKCU\\Software\\Microsoft\\Windows\\CurrentVersion\\Search\\"@, "SearchboxTaskbarMode"@, "REG_DWORD"@, on_off(enabled, "1"@, "0"@)),
        ],
        Feature::TaskbarWidgets => seq![
            ("HKCU\\Software\\Microsoft\\Windows\\CurrentVersion\\Explorer\\Advanced"@, "TaskbarDa"@, "REG_DWORD"@, on_off(enabled, "1"@, "0"@)),
        ],
        Feature::Snap => seq![
            ("HKCU\\Control Panel\\Desktop"@, "WindowArrangementActive"@, "REG_SZ"@, on_off(enabled, "1"@, "0"@)),
        ],
        Feature::StickyKeys => seq![
            ("HKCU\\Control Panel\\Accessibility\\StickyKeys"@, "Flags"@, "REG_SZ"@, on_off(enabled, "510"@, "58"@)),
        ],
        Feature::TaskView => seq![
            ("HKCU\\Software\\Microsoft\\Windows\\CurrentVersion\\Explorer\\Advanced"@, "ShowTaskViewButton"@, "REG_DWORD"@, on_off(enabled, "1"@, "0"@)),
        ],
        Feature::VerboseLogon => seq![
            ("HKLM\\SOFTWARE\\Microsoft\\Windows\\CurrentVersion\\Policies\\System"@, "VerboseStatus"@, "REG_DWORD"@, on_off(enabled, "1"@, "0"@)),
        ],
    }
}

fn pick(enabled: bool, on: &str, off: &str) -> (r: String)
    ensures
        r@ == on_off(enabled, on@, off@),
{
    if enabled {
        lit(on)
    } else {
        lit(off)
    }
}

fn reg_add(path: &str, name: &str, kind: &str, data: String) -> (r: RegAdd)
    ensures
        (r.path@, r.name@, r.kind@, r.data@) == (path@, name@, kind@, data@),
{
    RegAdd { path: lit(path), name: lit(name), kind: lit(kind), data }
}

/// The registry writes that set `feature` to `enabled`, in the order in which
/// they are made.
pub fn feature_writes(feature: Feature, enabled: bool) -> (r: Vec<RegAdd>)
    ensures
        adds_view(r@) == feature_adds(feature, enabled),
        r@.len() > 0,
        feature is NumLock ==> r@.len() == 2 && numlock_of(r@[0].data@) == enabled && numlock_of(r@[1].data@) == enabled,
        !(feature is NumLock) ==> (parse_i32_spec(r@[0].data@) matches Some(n) && rule_holds(
            feature_rule_spec(feature),
            n,
        ) == enabled),
{
    proof {
        lemma_switch_round_trip(feature, enabled);
    }
    let mut r: Vec<RegAdd> = Vec::new();
    match feature {
        Feature::MouseAccel => {
            r.push(reg_add("HKCU\\Control Panel\\Mouse", "MouseSpeed", "REG_SZ", pick(enabled, "1", "0")));
            r.push(reg_add("HKCU\\Control Panel\\Mouse", "MouseThreshold1", "REG_SZ", pick(enabled, "6", "0")));
            r.push(reg_add("HKCU\\Control Panel\\Mouse", "MouseThreshold2", "REG_SZ", pick(enabled, "10", "0")));
        },
        Feature::NumLock => {
            r.push(reg_add("HKCU\\Control Panel\\Keyboard", "InitialKeyboardIndicators", "REG_SZ", pick(enabled, "2", "0")));
            r.push(reg_add("HKU\\.DEFAULT\\Control Panel\\Keyboard", "InitialKeyboardIndicators", "REG_SZ", pick(enabled, "2", "0")));
        },
        Feature::TaskbarSearch => {
            r.push(reg_add("HKCU\\Software\\Microsoft\\Windows\\CurrentVersion\\Search\\", "SearchboxTaskbarMode", "REG_DWORD", pick(enabled, "1", "0")));
        },
        Feature::TaskbarWidgets => {
            r.push(reg_add("HKCU\\Software\\Microsoft\\Windows\\CurrentVersion\\Explorer\\Advanced", "TaskbarDa", "REG_DWORD", pick(enabled, "1", "0")));
        },
        Feature::Snap => {
            r.push(reg_add("HKCU\\Control Panel\\Desktop", "WindowArrangementActive", "REG_SZ", pick(enabled, "1", "0")));
        },
        Feature::StickyKeys => {
            r.push(reg_add("HKCU\\Control Panel\\Accessibility\\StickyKeys", "Flags", "REG_SZ", pick(enabled, "510", "58")));
        },
        Feature::TaskView => {
            r.push(reg_add("HKCU\\Software\\Microsoft\\Windows\\CurrentVersion\\Explorer\\Advanced", "ShowTaskViewButton", "REG_DWORD", pick(enabled, "1", "0")));
        },
        Feature::VerboseLogon => {
            r.push(reg_add("HKLM\\SOFTWARE\\Microsoft\\Windows\\CurrentVersion\\Policies\\System", "VerboseStatus", "REG_DWORD", pick(enabled, "1", "0")));
        },
    }
    assert(adds_view(r@) =~= feature_adds(feature, enabled));
    r
}

/// The arguments of `reg` for one write: `add <path> /v <name> /t <kind> /d <data> /f`.
pub fn reg_add_args(a: &RegAdd) -> (r: Vec<String>)
    ensures
        r@.map_values(|s: String| s@) == seq!["add"@, a.path@, "/v"@, a.name@, "/t"@, a.kind@, "/d"@, a.data@, "/f"@],
{
    let r = vec![lit("add"), a.path.clone(), lit("/v"), a.name.clone(), lit("/t"), a.kind.clone(), lit("/d"), a.data.clone(), lit("/f")];
    assert(r@.map_values(|s: String| s@) =~= seq!["add"@, a.path@, "/v"@, a.name@, "/t"@, a.kind@, "/d"@, a.data@, "/f"@]);
    r
}

} // verus!

verus! {

/// Where a switch is read from: the key path and value name of each registry
/// value consulted, in order (NumLock falls back on the default user's key).
pub open spec fn feature_locations(feature: Feature) -> Seq<(Seq<char>, Seq<char>)> {
    match feature {
        Feature::MouseAccel => seq![("HKCU\\Control Panel\\Mouse"@, "MouseSpeed"@)],
        Feature::NumLock => seq![
            ("HKCU\\Control Panel\\Keyboard"@, "InitialKeyboardIndicators"@),
            ("HKU\\.DEFAULT\\Control Panel\\Keyboard"@, "InitialKeyboardIndicators"@),
        ],
        Feature::TaskbarSearch => seq![("HKCU\\Software\\Microsoft\\Windows\\CurrentVersion\\Search\\"@, "SearchboxTaskbarMode"@)],
        Feature::TaskbarWidgets => seq![("HKCU\\Software\\Microsoft\\Windows\\CurrentVersion\\Explorer\\Advanced"@, "TaskbarDa"@)],
        Feature::Snap => seq![("HKCU\\Control Panel\\Desktop"@, "WindowArrangementActive"@)],
        Feature::StickyKeys => seq![("HKCU\\Control Panel\\Accessibility\\StickyKeys"@, "Flags"@)],
        Feature::TaskView => seq![("HKCU\\Software\\Microsoft\\Windows\\CurrentVersion\\Explorer\\Advanced"@, "ShowTaskViewButton"@)],
        Feature::VerboseLogon => seq![("HKLM\\SOFTWARE\\Microsoft\\Windows\\CurrentVersion\\Policies\\System"@, "VerboseStatus"@)],
    }
}

fn loc(path: &str, name: &str) -> (r: (String, String))
    ensures
        (r.0@, r.1@) == (path@, name@),
{
    (lit(path), lit(name))
}

/// The registry values to query for `feature`, in the order in which they are
/// consulted.
pub fn feature_query(feature: Feature) -> (r: Vec<(String, String)>)
    ensures
        r@.map_values(|p: (String, String)| (p.0@, p.1@)) == feature_locations(feature),
{
    let mut r: Vec<(String, String)> = Vec::new();
    match feature {
        Feature::MouseAccel => {
            r.push(loc("HKCU\\Control Panel\\Mouse", "MouseSpeed"));
        },
        Feature::NumLock => {
            r.push(loc("HKCU\\Control Panel\\Keyboard", "InitialKeyboardIndicators"));
            r.push(loc("HKU\\.DEFAULT\\Control Panel\\Keyboard", "InitialKeyboardIndicators"));
        },
        Feature::TaskbarSearch => {
            r.push(loc("HKCU\\Software\\Microsoft\\Windows\\CurrentVersion\\Search\\", "SearchboxTaskbarMode"));
        },
        Feature::TaskbarWidgets => {
            r.push(loc("HKCU\\Software\\Microsoft\\Windows\\CurrentVersion\\Explorer\\Advanced", "TaskbarDa"));
        },
        Feature::Snap => {
            r.push(loc("HKCU\\Control Panel\\Desktop", "WindowArrangementActive"));
        },
        Feature::StickyKeys => {
            r.push(loc("HKCU\\Control Panel\\Accessibility\\StickyKeys", "Flags"));
        },
        Feature::TaskView => {
            r.push(loc("HKCU\\Software\\Microsoft\\Windows\\CurrentVersion\\Explorer\\Advanced", "ShowTaskViewButton"));
        },
        Feature::VerboseLogon => {
            r.push(loc("HKLM\\SOFTWARE\\Microsoft\\Windows\\CurrentVersion\\Policies\\System", "VerboseStatus"));
        },
    }
    assert(r@.map_values(|p: (String, String)| (p.0@, p.1@)) =~= feature_locations(feature));
    r
}

/// How the value of a switch other than NumLock reads: mouse acceleration is on
/// for a positive `MouseSpeed`, sticky keys for `Flags` 510, the others for any
/// number but zero.
pub open spec fn feature_rule_spec(feature: Feature) -> FlagRule {
    match feature {
        Feature::MouseAccel => FlagRule::Positive,
        Feature::StickyKeys => FlagRule::Equals(510),
        _ => FlagRule::NonZero,
    }
}

/// The reading rule of `feature` (NumLock reads by `numlock_from_values`).
pub fn feature_rule(feature: Feature) -> (r: FlagRule)
    ensures
        r == feature_rule_spec(feature),
{
    match feature {
        Feature::MouseAccel => FlagRule::Positive,
        Feature::StickyKeys => FlagRule::Equals(510),
        _ => FlagRule::NonZero,
    }
}

/// One line of the report of a multi-value switch: `<label>: ok` or
/// `<label>: err: <stderr>`, and a newline.
pub open spec fn report_line(label: Seq<char>, ok: bool, err: Seq<char>) -> Seq<char> {
    if ok {
        label + ": ok\n"@
    } else {
        label + ": err: "@ + err + "\n"@
    }
}

/// The label of write `a` in a report: the value name for mouse acceleration,
/// the key path for NumLock.
pub open spec fn report_label(feature: Feature, a: RegAddModel) -> Seq<char> {
    match feature {
        Feature::NumLock => a.0,
        _ => a.1,
    }
}

/// The report of the writes `adds` with their outcomes `(success, stdout, stderr)`.
pub open spec fn report_of(
    feature: Feature,
    adds: Seq<RegAddModel>,
    outs: Seq<(bool, Seq<char>, Seq<char>)>,
) -> Seq<char>
    decreases adds.len(),
{
    if adds.len() == 0 || outs.len() == 0 {
        seq![]
    } else {
        report_of(feature, adds.drop_last(), outs.drop_last()) + report_line(
            report_label(feature, adds.last()),
            outs.last().0,
            outs.last().2,
        )
    }
}

/// The outcomes as plain values.
pub open spec fn outs_view(o: Seq<(bool, String, String)>) -> Seq<(bool, Seq<char>, Seq<char>)> {
    o.map_values(|x: (bool, String, String)| (x.0, x.1@, x.2@))
}

/// What setting a switch reports, given the writes made and how each went
/// (`(success, stdout, stderr)`). Mouse acceleration and NumLock report one line
/// per write and succeed; the others give the output of their one write, as the
/// error when it failed.
pub fn write_outcome(feature: Feature, adds: &Vec<RegAdd>, outs: &Vec<(bool, String, String)>) -> (r: Result<String, String>)
    requires
        adds.len() == outs.len(),
        adds.len() > 0,
    ensures
        match feature {
            Feature::MouseAccel | Feature::NumLock => r matches Ok(s) && s@ == report_of(feature, adds_view(adds@), outs_view(outs@)),
            _ => if outs@[0].0 {
                r matches Ok(s) && s@ == outs@[0].1@
            } else {
                r matches Err(e) && e@ == outs@[0].2@
            },
        },
{
    match feature {
        Feature::MouseAccel | Feature::NumLock => {
            let ghost av = adds_view(adds@);
            let ghost ov = outs_view(outs@);
            let mut s = String::new();
            let mut i: usize = 0;
            while i < adds.len()
                invariant
                    i <= adds.len() == outs.len(),
                    av == adds_view(adds@),
                    ov == outs_view(outs@),
                    s@ == report_of(feature, av.subrange(0, i as int), ov.subrange(0, i as int)),
                decreases adds.len() - i,
            {
                proof {
                    assert(av.subrange(0, i + 1).drop_last() =~= av.subrange(0, i as int));
                    assert(ov.subrange(0, i + 1).drop_last() =~= ov.subrange(0, i as int));
                }
                let label = match feature {
                    Feature::NumLock => adds[i].path.clone(),
                    _ => adds[i].name.clone(),
                };
                let line = if outs[i].0 {
                    concat2(label.as_str(), ": ok\n")
                } else {
                    concat3(concat2(label.as_str(), ": err: ").as_str(), outs[i].2.as_str(), "\n")
                };
                s.append(line.as_str());
                i = i + 1;
            }
            assert(av.subrange(0, adds.len() as int) =~= av);
            assert(ov.subrange(0, adds.len() as int) =~= ov);
            Ok(s)
        },
        _ => {
            if outs[0].0 {
                Ok(outs[0].1.clone())
            } else {
                Err(outs[0].2.clone())
            }
        },
    }
}

/// Whether a failed write of the widgets switch is retried through an elevated
/// `regedit` import: when its error output, lower-cased, says access is denied.
pub fn widgets_needs_elevation(stderr: &str) -> (r: bool)
    ensures
        r == has_sub(lowercase(stderr@), "access is denied"@),
{
    let low = to_lowercase(stderr);
    contains(&chars_of(low.as_str()), &chars_of("access is denied"))
}

/// The `.reg` file that sets the widgets switch through `regedit`.
pub fn widgets_reg_text(enabled: bool) -> (r: String)
    ensures
        r@ == "Windows Registry Editor Version 5.00\r\n\r\n[HKEY_CURRENT_USER\\Software\\Microsoft\\Windows\\CurrentVersion\\Explorer\\Advanced]\r\n\"TaskbarDa\"=dword:"@
            + on_off(enabled, "00000001"@, "00000000"@) + "\r\n"@,
{
    concat3(
        "Windows Registry Editor Version 5.00\r\n\r\n[HKEY_CURRENT_USER\\Software\\Microsoft\\Windows\\CurrentVersion\\Explorer\\Advanced]\r\n\"TaskbarDa\"=dword:",
        pick(enabled, "00000001", "00000000").as_str(),
        "\r\n",
    )
}

/// The PowerShell command that imports the `.reg` file at `path` through an
/// elevated `regedit`.
pub fn regedit_import_command(path: &str) -> (r: String)
    ensures
        r@ == "Start-Process regedit.exe -ArgumentList '/s','"@ + path@ + "' -Verb runas -Wait"@,
{
    concat3("Start-Process regedit.exe -ArgumentList '/s','", path, "' -Verb runas -Wait")
}

} // verus!

verus! {

/// Every switch reads back as it was set: each value that setting it writes is
/// one that reading it consults, and the data written, read by the switch's own
/// rule (NumLock's for NumLock), gives the state set. For the switches stored as
/// `REG_DWORD` this is the data as written; `reg query` prints such values in
/// hex.
pub proof fn lemma_switch_round_trip(feature: Feature, enabled: bool)
    ensures
        feature_locations(feature).len() <= feature_adds(feature, enabled).len(),
        forall|i: int| 0 <= i < feature_locations(feature).len() ==> #[trigger] feature_locations(feature)[i] == (
            feature_adds(feature, enabled)[i].0,
            feature_adds(feature, enabled)[i].1,
        ),
        feature is NumLock ==> numlock_of(feature_adds(feature, enabled)[0].3) == enabled
            && numlock_of(feature_adds(feature, enabled)[1].3) == enabled,
        !(feature is NumLock) ==> (parse_i32_spec(feature_adds(feature, enabled)[0].3) matches Some(n) && rule_holds(
            feature_rule_spec(feature),
            n,
        ) == enabled),
{
    reveal_strlit("0");
    reveal_strlit("1");
    reveal_strlit("2");
    reveal_strlit("58");
    reveal_strlit("510");
    let d = feature_adds(feature, enabled)[0].3;
    assert(crate::text::all_digits(d));
    reveal_with_fuel(crate::text::digits_value, 4);
}

} // verus!

verus! {

/// A switch stored as text (mouse acceleration, NumLock, snapping, sticky keys)
/// reads back as it was set: each value that setting it writes is one that
/// reading it consults, and the text written reads as the state set.
pub proof fn lemma_text_switch_round_trip(feature: Feature, enabled: bool)
    requires
        feature is MouseAccel || feature is NumLock || feature is Snap || feature is StickyKeys,
    ensures
        forall|i: int| 0 <= i < feature_locations(feature).len() ==> #[trigger] feature_locations(feature)[i] == (
            feature_adds(feature, enabled)[i].0,
            feature_adds(feature, enabled)[i].1,
        ),
        feature is NumLock ==> numlock_of(feature_adds(feature, enabled)[0].3) == enabled
            && numlock_of(feature_adds(feature, enabled)[1].3) == enabled,
        !(feature is NumLock) ==> (parse_i32_spec(feature_adds(feature, enabled)[0].3) matches Some(n) && rule_holds(
            feature_rule_spec(feature),
            n,
        ) == enabled),
{
    lemma_switch_round_trip(feature, enabled);
}

} // verus!
