//! The built-in app removal panel: which apps are selected, how each removal
//! step is decided and logged, and how the detection output is summarized.
use vstd::prelude::*;

use crate::text::{
    chars_of, concat2, concat3, contains, decimal, has_sub, lines, lit, ltrim, replace_all_char,
    replace_char, rtrim, split_lines, string_of, trim, trim_chars, trim_end, u64_text, views,
};

verus! {

/// The progress of a bulk operation.
#[derive(Clone)]
pub struct Progress {
    pub running: bool,
    pub current: usize,
    pub total: usize,
    pub label: String,
}

impl Default for Progress {
    /// Not running, nothing done.
    fn default() -> (r: Self)
        ensures
            !r.running,
            r.current == 0,
            r.total == 0,
            r.label@.len() == 0,
    {
        Progress { running: false, current: 0, total: 0, label: String::new() }
    }
}

/// Starts a bulk operation over `total` apps.
pub fn progress_begin(p: &mut Progress, total: usize)
    ensures
        final(p).running,
        final(p).current == 0,
        final(p).total == total,
        final(p).label@.len() == 0,
{
    p.running = true;
    p.current = 0;
    p.total = total;
    p.label = String::new();
}

/// The label of the app at position `pos` of `total`: `<name> (<pos + 1>/<total>)`.
pub open spec fn step_label(name: Seq<char>, pos: nat, total: nat) -> Seq<char> {
    name + " ("@ + decimal(pos + 1) + "/"@ + decimal(total) + ")"@
}

/// Marks the app `name` at position `pos` as the one being processed.
pub fn progress_at(p: &mut Progress, pos: usize, name: &str)
    requires
        pos < old(p).total,
    ensures
        final(p).running == old(p).running,
        final(p).total == old(p).total,
        final(p).current == pos,
        final(p).label@ == step_label(name@, pos as nat, old(p).total as nat),
{
    let mut label = concat2(name, " (");
    label.append(u64_text(pos as u64 + 1).as_str());
    label.append("/");
    label.append(u64_text(p.total as u64).as_str());
    label.append(")");
    p.current = pos;
    p.label = label;
}

/// Ends a bulk operation: everything counted as done, no label, not running.
pub fn progress_end(p: &mut Progress)
    ensures
        !final(p).running,
        final(p).current == old(p).total,
        final(p).total == old(p).total,
        final(p).label@.len() == 0,
{
    p.current = p.total;
    p.label = String::new();
    p.running = false;
}

/// Whether an app is removed and what is logged about it: a detected app is
/// removed; one not detected is removed only when forcing.
pub fn removal_step(found: bool, force: bool, label: &str) -> (r: (bool, String))
    ensures
        r.0 == (found || force),
        found ==> r.1@ == "ℹ "@ + label@ + ": Detected installed. Proceeding with removal."@,
        !found && force ==> r.1@ == "⚠ "@ + label@ + ": Not detected but force=true -> attempting removal anyway."@,
        !found && !force ==> r.1@ == "ℹ "@ + label@ + ": Application not found. Skipping."@,
{
    if found {
        (true, concat3("ℹ ", label, ": Detected installed. Proceeding with removal."))
    } else if force {
        (true, concat3("⚠ ", label, ": Not detected but force=true -> attempting removal anyway."))
    } else {
        (false, concat3("ℹ ", label, ": Application not found. Skipping."))
    }
}

/// The positions of the selected apps, in order.
pub open spec fn selected(sel: Seq<bool>) -> Seq<int>
    decreases sel.len(),
{
    if sel.len() == 0 {
        seq![]
    } else {
        selected(sel.drop_last()) + if sel.last() {
            seq![sel.len() - 1]
        } else {
            seq![]
        }
    }
}

/// The positions of the selected apps, in order.
pub fn selected_indices(sel: &Vec<bool>) -> (r: Vec<usize>)
    ensures
        r@.map_values(|i: usize| i as int) == selected(sel@),
{
    let mut r: Vec<usize> = Vec::new();
    let mut i: usize = 0;
    while i < sel.len()
        invariant
            i <= sel.len(),
            r@.map_values(|j: usize| j as int) == selected(sel@.subrange(0, i as int)),
        decreases sel.len() - i,
    {
        proof {
            assert(sel@.subrange(0, i + 1).drop_last() =~= sel@.subrange(0, i as int));
        }
        let ghost before = r@.map_values(|j: usize| j as int);
        if sel[i] {
            r.push(i);
            assert(r@.map_values(|j: usize| j as int) =~= before + seq![i as int]);
        } else {
            assert(r@.map_values(|j: usize| j as int) =~= before + Seq::<int>::empty());
        }
        i = i + 1;
    }
    assert(sel@.subrange(0, sel.len() as int) =~= sel@);
    r
}

/// The positions of the apps listed under `group`, in order.
pub open spec fn in_group(groups: Seq<Seq<char>>, g: Seq<char>) -> Seq<int>
    decreases groups.len(),
{
    if groups.len() == 0 {
        seq![]
    } else {
        in_group(groups.drop_last(), g) + if groups.last() == g {
            seq![groups.len() - 1]
        } else {
            seq![]
        }
    }
}

/// The positions of the apps listed under `group`, in order.
pub fn group_indices(groups: &Vec<String>, group: &String) -> (r: Vec<usize>)
    ensures
        r@.map_values(|i: usize| i as int) == in_group(groups@.map_values(|s: String| s@), group@),
{
    let ghost gv = groups@.map_values(|s: String| s@);
    let mut r: Vec<usize> = Vec::new();
    let mut i: usize = 0;
    while i < groups.len()
        invariant
            i <= groups.len(),
            gv == groups@.map_values(|s: String| s@),
            r@.map_values(|j: usize| j as int) == in_group(gv.subrange(0, i as int), group@),
        decreases groups.len() - i,
    {
        proof {
            assert(gv.subrange(0, i + 1).drop_last() =~= gv.subrange(0, i as int));
        }
        let ghost before = r@.map_values(|j: usize| j as int);
        if groups[i] == *group {
            r.push(i);
            assert(r@.map_values(|j: usize| j as int) =~= before + seq![i as int]);
        } else {
            assert(r@.map_values(|j: usize| j as int) =~= before + Seq::<int>::empty());
        }
        i = i + 1;
    }
    assert(gv.subrange(0, groups.len() as int) =~= gv);
    r
}

/// The text of an app's check box: its label, and ` (installed)` when it was
/// detected.
pub fn installed_label(label: &str, installed: bool) -> (r: String)
    ensures
        r@ == if installed {
            label@ + " (installed)"@
        } else {
            label@
        },
{
    if installed {
        concat2(label, " (installed)")
    } else {
        lit(label)
    }
}

/// Makes a selection or detection list as long as the app list: cut, or padded
/// with unchecked entries.
pub fn fit_flags(v: &mut Vec<bool>, n: usize)
    ensures
        final(v)@.len() == n,
        forall|i: int| 0 <= i < n ==> #[trigger] final(v)@[i] == if i < old(v)@.len() {
            old(v)@[i]
        } else {
            false
        },
{
    let mut out: Vec<bool> = Vec::new();
    let mut i: usize = 0;
    while i < n
        invariant
            i <= n,
            out@.len() == i,
            v@ == old(v)@,
            forall|j: int| 0 <= j < i ==> #[trigger] out@[j] == if j < old(v)@.len() {
                old(v)@[j]
            } else {
                false
            },
        decreases n - i,
    {
        if i < v.len() {
            out.push(v[i]);
        } else {
            out.push(false);
        }
        i = i + 1;
    }
    *v = out;
}

/// Unchecks the app at `idx` (after its removal was attempted), if there is one.
pub fn uncheck(sel: &mut Vec<bool>, idx: usize)
    ensures
        final(sel)@ == if idx < old(sel)@.len() {
            old(sel)@.update(idx as int, false)
        } else {
            old(sel)@
        },
{
    if idx < sel.len() {
        sel.set(idx, false);
    }
}

/// The pattern made safe for single- and double-quoted PowerShell strings: its
/// quotes removed.
pub open spec fn safe_pattern(p: Seq<char>) -> Seq<char> {
    replace_char(replace_char(p, '\'', seq![]), '"', seq![])
}

/// The quote-free pattern and the `-like` pattern `*<pattern>*` used in the
/// detection and removal scripts.
pub fn like_pattern(pattern: &str) -> (r: (String, String))
    ensures
        r.0@ == safe_pattern(pattern@),
        r.1@ == seq!['*'] + safe_pattern(pattern@) + seq!['*'],
{
    let empty: Vec<char> = Vec::new();
    let a = replace_all_char(&chars_of(pattern), '\'', &empty);
    let b = replace_all_char(&a, '"', &empty);
    assert(empty@ =~= Seq::<char>::empty());
    let safe = string_of(&b);
    let like = concat3("*", safe.as_str(), "*");
    proof {
        reveal_strlit("*");
    }
    (safe, like)
}

/// The section that a detection channel adds to the diagnosis: its title and its
/// output with trailing white space removed, when the output is not blank.
pub open spec fn detect_section(title: Seq<char>, out: Seq<char>) -> Seq<char> {
    if trim(out).len() == 0 {
        seq![]
    } else {
        "=== "@ + title + " ===\n"@ + rtrim(out) + "\n\n"@
    }
}

/// Adds a detection channel's output to the diagnosis; returns whether the
/// channel found anything (printed something other than white space).
pub fn append_detect_section(diag: &mut String, title: &str, out: &str) -> (found: bool)
    ensures
        found == (trim(out@).len() > 0),
        final(diag)@ == old(diag)@ + detect_section(title@, out@),
{
    let cs = chars_of(out);
    if trim_chars(&cs).len() == 0 {
        assert(old(diag)@ + Seq::<char>::empty() =~= old(diag)@);
        return false;
    }
    let ghost before = diag@;
    diag.append("=== ");
    diag.append(title);
    diag.append(" ===\n");
    diag.append(string_of(&trim_end(&cs)).as_str());
    diag.append("\n\n");
    assert(diag@ =~= before + ("=== "@ + title@ + " ===\n"@ + rtrim(out@) + "\n\n"@));
    true
}

/// Whether a presence check printed `1` last (after trimming).
pub fn presence_flag(out: &str) -> (r: bool)
    ensures
        r == (trim(out@).len() > 0 && trim(out@).last() == '1'),
{
    let t = trim_chars(&chars_of(out));
    t.len() > 0 && t[t.len() - 1] == '1'
}

/// The provisioned-package lines on which a DISM removal is tried: the trimmed
/// lines that are not empty and contain neither `FAILED` nor `REMOVED`.
pub open spec fn dism_targets(ls: Seq<Seq<char>>) -> Seq<Seq<char>>
    decreases ls.len(),
{
    if ls.len() == 0 {
        seq![]
    } else {
        let l = trim(ls.last());
        dism_targets(ls.drop_last()) + if l.len() > 0 && !has_sub(l, "FAILED"@) && !has_sub(l, "REMOVED"@) {
            seq![l]
        } else {
            seq![]
        }
    }
}

/// The package names on which `dism /Remove-ProvisionedAppxPackage` is tried.
pub fn dism_candidates(out: &str) -> (r: Vec<String>)
    ensures
        r@.map_values(|s: String| s@) == dism_targets(lines(out@)),
{
    let ls = split_lines(&chars_of(out));
    let ghost lv = views(ls@);
    let failed = chars_of("FAILED");
    let removed = chars_of("REMOVED");
    let mut r: Vec<String> = Vec::new();
    let mut i: usize = 0;
    while i < ls.len()
        invariant
            i <= ls.len(),
            lv == views(ls@),
            lv == lines(out@),
            failed@ == "FAILED"@,
            removed@ == "REMOVED"@,
            r@.map_values(|s: String| s@) == dism_targets(lv.subrange(0, i as int)),
        decreases ls.len() - i,
    {
        proof {
            assert(lv.subrange(0, i + 1).drop_last() =~= lv.subrange(0, i as int));
        }
        let ghost before = r@.map_values(|s: String| s@);
        let l = trim_chars(&ls[i]);
        if l.len() > 0 && !contains(&l, &failed) && !contains(&l, &removed) {
            r.push(string_of(&l));
            assert(r@.map_values(|s: String| s@) =~= before + seq![l@]);
        } else {
            assert(r@.map_values(|s: String| s@) =~= before + Seq::<Seq<char>>::empty());
        }
        i = i + 1;
    }
    assert(lv.subrange(0, ls.len() as int) =~= lv);
    r
}

/// The DISM command that removes the provisioned package `name`.
pub fn dism_command(name: &str) -> (r: String)
    ensures
        r@ == "dism /Online /Remove-ProvisionedAppxPackage /PackageName:"@ + name@,
{
    concat2("dism /Online /Remove-ProvisionedAppxPackage /PackageName:", name)
}

/// The line that opens or closes a removal run over all apps or over the
/// selected ones, forced or not.
pub open spec fn banner(selected: bool, force: bool, start: bool) -> Seq<char> {
    if !selected {
        if start {
            if force { "📦 Force bulk removal started..."@ } else { "📦 Bulk removal started..."@ }
        } else {
            if force { "✅ Force bulk removal finished."@ } else { "✅ Bulk removal finished."@ }
        }
    } else {
        if start {
            if force { "📦 Force removal (selected) started..."@ } else { "📦 Removal (selected) started..."@ }
        } else {
            if force { "✅ Force removal (selected) finished."@ } else { "✅ Removal (selected) finished."@ }
        }
    }
}

/// The line that opens or closes a removal run.
pub fn removal_banner(selected: bool, force: bool, start: bool) -> (r: String)
    ensures
        r@ == banner(selected, force, start),
{
    if !selected {
        if start {
            if force { lit("📦 Force bulk removal started...") } else { lit("📦 Bulk removal started...") }
        } else {
            if force { lit("✅ Force bulk removal finished.") } else { lit("✅ Bulk removal finished.") }
        }
    } else {
        if start {
            if force { lit("📦 Force removal (selected) started...") } else { lit("📦 Removal (selected) started...") }
        } else {
            if force { lit("✅ Force removal (selected) finished.") } else { lit("✅ Removal (selected) finished.") }
        }
    }
}

/// The line logged before an app is processed.
pub fn processing_line(label: &str) -> (r: String)
    ensures
        r@ == "→ Processing: "@ + label@,
{
    concat2("→ Processing: ", label)
}

/// The line logged for an app when the installed states are refreshed.
pub fn refresh_status_line(label: &str, found: bool) -> (r: String)
    ensures
        r@ == label@ + " -> "@ + if found { "installed"@ } else { "not found"@ },
{
    if found {
        concat3(label, " -> ", "installed")
    } else {
        concat3(label, " -> ", "not found")
    }
}

/// The titles of the detection channels, in the order in which they are run.
pub fn detection_titles() -> (r: Vec<String>)
    ensures
        crate::order::texts(r@) == seq![
            "Get-AppxPackage (CurrentUser)"@,
            "Get-AppxPackage -AllUsers"@,
            "Get-AppxProvisionedPackage -Online"@,
            "Get-StartApps (Start index)"@,
            "winget list (if available)"@,
            "Registry: Uninstall keys (HKLM/HKCU)"@,
        ],
{
    let r = vec![
        lit("Get-AppxPackage (CurrentUser)"),
        lit("Get-AppxPackage -AllUsers"),
        lit("Get-AppxProvisionedPackage -Online"),
        lit("Get-StartApps (Start index)"),
        lit("winget list (if available)"),
        lit("Registry: Uninstall keys (HKLM/HKCU)"),
    ];
    assert(crate::order::texts(r@) =~= seq![
        "Get-AppxPackage (CurrentUser)"@,
        "Get-AppxPackage -AllUsers"@,
        "Get-AppxProvisionedPackage -Online"@,
        "Get-StartApps (Start index)"@,
        "winget list (if available)"@,
        "Registry: Uninstall keys (HKLM/HKCU)"@,
    ]);
    r
}

/// DISM is never tried on a line that reports a failure or a removal, nor on a
/// blank one.
pub proof fn lemma_dism_targets_clean(ls: Seq<Seq<char>>, i: int)
    requires
        0 <= i < dism_targets(ls).len(),
    ensures
        dism_targets(ls)[i].len() > 0,
        !has_sub(dism_targets(ls)[i], "FAILED"@),
        !has_sub(dism_targets(ls)[i], "REMOVED"@),
    decreases ls.len(),
{
    if ls.len() > 0 {
        let prev = dism_targets(ls.drop_last());
        if i < prev.len() {
            lemma_dism_targets_clean(ls.drop_last(), i);
        }
    }
}

} // verus!
