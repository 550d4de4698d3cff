//! Removing one built-in app by name pattern.
//!
//! A removal runs a fixed series of PowerShell probes and removals, each chosen
//! from what the one before printed. The caller runs each script and hands its
//! output back to `removal_step`, which logs the outcome and names the next
//! script; the series always ends with a final presence check.
use vstd::prelude::*;

use crate::log::push_line;
use crate::text::{chars_of, concat2, concat3, lit, string_of, trim, trim_chars};
use crate::winapp::{dism_candidates, dism_command, dism_targets, like_pattern, presence_flag, safe_pattern};
use crate::text::lines;

verus! {

/// The script that a removal asks its caller to run next.
pub enum RemovalScript {
    /// Is anything matching the pattern installed (Appx, provisioned, Start menu)?
    PresenceCheck,
    /// `Remove-AppxPackage` for the current user.
    RemoveCurrentUser,
    /// `Remove-AppxPackage -AllUsers`.
    RemoveAllUsers,
    /// `Remove-AppxProvisionedPackage -Online`.
    RemoveProvisioned,
    /// This DISM command line.
    Dism(String),
    /// Packages derived from matching Start menu entries.
    StartApps,
    /// `winget uninstall` of matching entries.
    Winget,
    /// The `UninstallString` of matching registry entries.
    RegistryUninstall,
    /// The presence check again, after a short pause.
    FinalCheck,
}

/// Where a removal stands: the script whose output it waits for.
pub enum Stage {
    Check,
    CurrentUser,
    AllUsers,
    Provisioned,
    /// The DISM command for the candidate at this position.
    Dism(usize),
    StartApps,
    Winget,
    Registry,
    Final,
    Done,
}

/// A removal in progress.
pub struct Removal {
    /// The pattern as the caller gave it.
    pub pattern: String,
    /// The pattern without quotes.
    pub safe: String,
    /// `*<safe>*`, for PowerShell's `-like`.
    pub like: String,
    /// Whether the process runs elevated (system-wide removals are tried only then).
    pub elevated: bool,
    pub stage: Stage,
    /// The provisioned package names on which DISM is tried.
    pub dism: Vec<String>,
    /// The removal's own log.
    pub log: String,
}

/// The order of the stages.
pub open spec fn rank(s: Stage) -> int {
    match s {
        Stage::Check => 0,
        Stage::CurrentUser => 1,
        Stage::AllUsers => 2,
        Stage::Provisioned => 3,
        Stage::Dism(_) => 4,
        Stage::StartApps => 5,
        Stage::Winget => 6,
        Stage::Registry => 7,
        Stage::Final => 8,
        Stage::Done => 9,
    }
}

impl Removal {
    /// A DISM stage points at one of the candidates.
    pub open spec fn wf(&self) -> bool {
        self.stage matches Stage::Dism(i) ==> i < self.dism@.len()
    }

    /// The DISM candidates as text.
    pub open spec fn dism_view(&self) -> Seq<Seq<char>> {
        self.dism@.map_values(|s: String| s@)
    }
}

/// What is logged of a script's output: `label` and the trimmed output, or
/// `none` when the output is blank.
pub open spec fn block(label: Seq<char>, none: Seq<char>, out: Seq<char>) -> Seq<char> {
    if trim(out).len() > 0 {
        label + trim(out)
    } else {
        none
    }
}

/// A line of the log.
pub open spec fn ln(s: Seq<char>) -> Seq<char> {
    s + seq!['\n']
}

pub open spec fn msg_start(p: Seq<char>) -> Seq<char> {
    "Starting removal for pattern '"@ + p + "'"@
}

pub open spec fn msg_presence(present: bool) -> Seq<char> {
    if present {
        "Application found by Appx/StartApps/provisioned checks — proceeding with removal attempts."@
    } else {
        "Application not found on system (by Appx/StartApps/provisioned checks). Will still try winget/registry fallbacks."@
    }
}

pub open spec fn msg_try_user() -> Seq<char> {
    "→ Attempting Remove-AppxPackage (current user)..."@
}

pub open spec fn msg_try_all() -> Seq<char> {
    "→ Elevated: attempting Remove-AppxPackage (-AllUsers)..."@
}

pub open spec fn msg_not_elevated() -> Seq<char> {
    "⚠ Not elevated — skipping -AllUsers Remove-AppxPackage. Relaunch as Administrator to attempt system-wide removals."@
}

pub open spec fn msg_try_prov() -> Seq<char> {
    "→ Elevated: attempting Remove-AppxProvisionedPackage (Online)..."@
}

pub open spec fn msg_try_start() -> Seq<char> {
    "→ Fallback: checking Get-StartApps for AppID/Name -> derive family -> Remove-AppxPackage"@
}

pub open spec fn msg_try_winget() -> Seq<char> {
    "→ Fallback: checking winget for MSIX/WinGet-managed entries and attempting uninstall"@
}

pub open spec fn msg_try_reg() -> Seq<char> {
    "→ Fallback: checking registry uninstall keys for Win32 installers and attempting execution"@
}

pub open spec fn msg_try_final() -> Seq<char> {
    "→ Final verification after removal attempts..."@
}

pub open spec fn msg_try_dism(name: Seq<char>) -> Seq<char> {
    "↪ Fallback: attempting DISM remove-provisioned for '"@ + name + "'"@
}

pub open spec fn user_block(out: Seq<char>) -> Seq<char> {
    block("• current-user output:\n"@, "• current-user: no matching PackageFullName (or no output)."@, out)
}

pub open spec fn all_block(out: Seq<char>) -> Seq<char> {
    block("• all-users output:\n"@, "• all-users: no matching PackageFullName (or no output)."@, out)
}

pub open spec fn prov_block(out: Seq<char>) -> Seq<char> {
    block(
        "• provisioned output:\n"@,
        "• provisioned: no matching provisioned package removed (or no output)."@,
        out,
    )
}

pub open spec fn dism_block(out: Seq<char>) -> Seq<char> {
    block("• DISM output:\n"@, "• DISM: executed (no output)."@, out)
}

pub open spec fn start_block(out: Seq<char>) -> Seq<char> {
    block(
        "• Get-StartApps fallback output:\n"@,
        "• Get-StartApps: no matching AppID/Name or no removable package found via family."@,
        out,
    )
}

pub open spec fn winget_block(out: Seq<char>) -> Seq<char> {
    block(
        "• winget fallback output:\n"@,
        "• winget: no matching entries found or winget not available."@,
        out,
    )
}

pub open spec fn reg_block(out: Seq<char>) -> Seq<char> {
    block(
        "• registry uninstall attempts output:\n"@,
        "• registry uninstall: no matching uninstall strings found (or none executed)."@,
        out,
    )
}

/// What the final check logs.
pub open spec fn final_lines(p: Seq<char>, still: bool) -> Seq<char> {
    if still {
        ln("❌ After attempts, pattern '"@ + p + "' still matches installed traces (Appx/StartApps/provisioned)."@)
            + ln(
            "• Inspect outputs above for specific failure reasons (Access denied / Protected / DISM errors / winget errors)."@,
        )
    } else {
        ln("✅ Removal successful (no matching traces found for '"@ + p + "')."@)
    }
}

/// Whether the presence check's output says that the app is there.
pub open spec fn present(out: Seq<char>) -> bool {
    trim(out).len() > 0 && trim(out).last() == '1'
}

/// Logs `block(label, none, out)` as a line.
fn log_block(log: &mut String, label: &str, none: &str, out: &str)
    ensures
        final(log)@ == old(log)@ + ln(block(label@, none@, out@)),
{
    let t = trim_chars(&chars_of(out));
    if t.len() > 0 {
        let text = concat2(label, string_of(&t).as_str());
        push_line(log, text.as_str());
    } else {
        push_line(log, none);
    }
}

/// Starts the removal of the apps matching `pattern`: logs the start and asks
/// for the presence check.
pub fn removal_start(pattern: &str, elevated: bool) -> (r: (Removal, RemovalScript))
    ensures
        r.0.pattern@ == pattern@,
        r.0.safe@ == safe_pattern(pattern@),
        r.0.like@ == seq!['*'] + safe_pattern(pattern@) + seq!['*'],
        r.0.elevated == elevated,
        r.0.stage == Stage::Check,
        r.0.dism@.len() == 0,
        r.0.log@ == ln(msg_start(pattern@)),
        r.0.wf(),
        r.1 == RemovalScript::PresenceCheck,
{
    let (safe, like) = like_pattern(pattern);
    let mut log = String::new();
    let line = concat3("Starting removal for pattern '", pattern, "'");
    push_line(&mut log, line.as_str());
    let r = Removal {
        pattern: lit(pattern),
        safe,
        like,
        elevated,
        stage: Stage::Check,
        dism: Vec::new(),
        log,
    };
    (r, RemovalScript::PresenceCheck)
}

/// What the log gains, where the removal goes and which script comes next when the
/// script of stage `s` printed `out` (the DISM candidates `d`, the pattern `p`).
pub open spec fn advance(
    s: Stage,
    p: Seq<char>,
    elevated: bool,
    d: Seq<Seq<char>>,
    out: Seq<char>,
) -> (Seq<char>, Stage) {
    match s {
        Stage::Check => (ln(msg_presence(present(out))) + ln(msg_try_user()), Stage::CurrentUser),
        Stage::CurrentUser => if elevated {
            (ln(user_block(out)) + ln(msg_try_all()), Stage::AllUsers)
        } else {
            (ln(user_block(out)) + ln(msg_not_elevated()) + ln(msg_try_start()), Stage::StartApps)
        },
        Stage::AllUsers => (ln(all_block(out)) + ln(msg_try_prov()), Stage::Provisioned),
        Stage::Provisioned => {
            let c = if trim(out).len() > 0 {
                dism_targets(lines(out))
            } else {
                seq![]
            };
            if c.len() > 0 {
                (ln(prov_block(out)) + ln(msg_try_dism(c[0])), Stage::Dism(0))
            } else {
                (ln(prov_block(out)) + ln(msg_try_start()), Stage::StartApps)
            }
        },
        Stage::Dism(i) => if i + 1 < d.len() {
            (ln(dism_block(out)) + ln(msg_try_dism(d[i + 1])), Stage::Dism((i + 1) as usize))
        } else {
            (ln(dism_block(out)) + ln(msg_try_start()), Stage::StartApps)
        },
        Stage::StartApps => (ln(start_block(out)) + ln(msg_try_winget()), Stage::Winget),
        Stage::Winget => (ln(winget_block(out)) + ln(msg_try_reg()), Stage::Registry),
        Stage::Registry => (ln(reg_block(out)) + ln(msg_try_final()), Stage::Final),
        Stage::Final => (final_lines(p, present(out)), Stage::Done),
        Stage::Done => (seq![], Stage::Done),
    }
}

/// The script that stage `s` waits for (`None` once the removal is done), with
/// the DISM candidates `d`.
pub open spec fn script_of(s: Stage, d: Seq<Seq<char>>, c: Option<RemovalScript>) -> bool {
    match s {
        Stage::Check => c == Some(RemovalScript::PresenceCheck),
        Stage::CurrentUser => c == Some(RemovalScript::RemoveCurrentUser),
        Stage::AllUsers => c == Some(RemovalScript::RemoveAllUsers),
        Stage::Provisioned => c == Some(RemovalScript::RemoveProvisioned),
        Stage::Dism(i) => c matches Some(RemovalScript::Dism(cmd)) && cmd@
            == "dism /Online /Remove-ProvisionedAppxPackage /PackageName:"@ + d[i as int],
        Stage::StartApps => c == Some(RemovalScript::StartApps),
        Stage::Winget => c == Some(RemovalScript::Winget),
        Stage::Registry => c == Some(RemovalScript::RegistryUninstall),
        Stage::Final => c == Some(RemovalScript::FinalCheck),
        Stage::Done => c is None,
    }
}

/// The command for the DISM candidate `i`.
fn dism_script(r: &Removal, i: usize) -> (c: RemovalScript)
    requires
        i < r.dism@.len(),
    ensures
        c matches RemovalScript::Dism(cmd) && cmd@ == "dism /Online /Remove-ProvisionedAppxPackage /PackageName:"@
            + r.dism@[i as int]@,
{
    RemovalScript::Dism(dism_command(r.dism[i].as_str()))
}

/// `new` is `old` after the output `out` of its script was taken, and `next` is
/// the script that comes next.
pub open spec fn stepped(old: Removal, new: Removal, out: Seq<char>, next: Option<RemovalScript>) -> bool {
    let (added, stage) = advance(old.stage, old.pattern@, old.elevated, old.dism_view(), out);
    &&& new.wf()
    &&& new.pattern == old.pattern
    &&& new.safe == old.safe
    &&& new.like == old.like
    &&& new.elevated == old.elevated
    &&& new.log@ == old.log@ + added
    &&& new.stage == stage
    &&& old.stage is Provisioned ==> new.dism_view() == if trim(out).len() > 0 {
        dism_targets(lines(out))
    } else {
        seq![]
    }
    &&& !(old.stage is Provisioned) ==> new.dism_view() == old.dism_view()
    &&& script_of(new.stage, new.dism_view(), next)
}

fn step_check(r: &mut Removal, out: &str) -> (next: Option<RemovalScript>)
    requires
        old(r).wf(),
        old(r).stage is Check,
    ensures
        stepped(*old(r), *final(r), out@, next),
{
    let ghost r0 = *r;
    let found = presence_flag(out);
    if found {
        push_line(&mut r.log, "Application found by Appx/StartApps/provisioned checks — proceeding with removal attempts.");
    } else {
        push_line(&mut r.log, "Application not found on system (by Appx/StartApps/provisioned checks). Will still try winget/registry fallbacks.");
    }
    push_line(&mut r.log, "→ Attempting Remove-AppxPackage (current user)...");
    r.stage = Stage::CurrentUser;
    assert(r.log@ =~= r0.log@ + advance(r0.stage, r0.pattern@, r0.elevated, r0.dism_view(), out@).0);
    Some(RemovalScript::RemoveCurrentUser)
}

fn step_user(r: &mut Removal, out: &str) -> (next: Option<RemovalScript>)
    requires
        old(r).wf(),
        old(r).stage is CurrentUser,
    ensures
        stepped(*old(r), *final(r), out@, next),
{
    let ghost r0 = *r;
    log_block(&mut r.log, "• current-user output:\n", "• current-user: no matching PackageFullName (or no output).", out);
    if r.elevated {
        push_line(&mut r.log, "→ Elevated: attempting Remove-AppxPackage (-AllUsers)...");
        r.stage = Stage::AllUsers;
        assert(r.log@ =~= r0.log@ + advance(r0.stage, r0.pattern@, r0.elevated, r0.dism_view(), out@).0);
        Some(RemovalScript::RemoveAllUsers)
    } else {
        push_line(&mut r.log, "⚠ Not elevated — skipping -AllUsers Remove-AppxPackage. Relaunch as Administrator to attempt system-wide removals.");
        push_line(&mut r.log, "→ Fallback: checking Get-StartApps for AppID/Name -> derive family -> Remove-AppxPackage");
        r.stage = Stage::StartApps;
        assert(r.log@ =~= r0.log@ + advance(r0.stage, r0.pattern@, r0.elevated, r0.dism_view(), out@).0);
        Some(RemovalScript::StartApps)
    }
}

fn step_all(r: &mut Removal, out: &str) -> (next: Option<RemovalScript>)
    requires
        old(r).wf(),
        old(r).stage is AllUsers,
    ensures
        stepped(*old(r), *final(r), out@, next),
{
    let ghost r0 = *r;
    log_block(&mut r.log, "• all-users output:\n", "• all-users: no matching PackageFullName (or no output).", out);
    push_line(&mut r.log, "→ Elevated: attempting Remove-AppxProvisionedPackage (Online)...");
    r.stage = Stage::Provisioned;
    assert(r.log@ =~= r0.log@ + advance(r0.stage, r0.pattern@, r0.elevated, r0.dism_view(), out@).0);
    Some(RemovalScript::RemoveProvisioned)
}

fn step_prov(r: &mut Removal, out: &str) -> (next: Option<RemovalScript>)
    requires
        old(r).wf(),
        old(r).stage is Provisioned,
    ensures
        stepped(*old(r), *final(r), out@, next),
{
    let ghost r0 = *r;
    log_block(
        &mut r.log,
        "• provisioned output:\n",
        "• provisioned: no matching provisioned package removed (or no output).",
        out,
    );
    let blank = trim_chars(&chars_of(out)).len() == 0;
    if blank {
        r.dism = Vec::new();
        assert(r.dism_view() =~= Seq::<Seq<char>>::empty());
    } else {
        r.dism = dism_candidates(out);
    }
    if r.dism.len() > 0 {
        let line = concat3("↪ Fallback: attempting DISM remove-provisioned for '", r.dism[0].as_str(), "'");
        push_line(&mut r.log, line.as_str());
        r.stage = Stage::Dism(0);
        assert(r.log@ =~= r0.log@ + advance(r0.stage, r0.pattern@, r0.elevated, r0.dism_view(), out@).0);
        Some(dism_script(r, 0))
    } else {
        push_line(&mut r.log, "→ Fallback: checking Get-StartApps for AppID/Name -> derive family -> Remove-AppxPackage");
        r.stage = Stage::StartApps;
        assert(r.log@ =~= r0.log@ + advance(r0.stage, r0.pattern@, r0.elevated, r0.dism_view(), out@).0);
        Some(RemovalScript::StartApps)
    }
}

fn step_dism(r: &mut Removal, out: &str, i: usize) -> (next: Option<RemovalScript>)
    requires
        old(r).wf(),
        old(r).stage == Stage::Dism(i),
    ensures
        stepped(*old(r), *final(r), out@, next),
{
    let ghost r0 = *r;
    log_block(&mut r.log, "• DISM output:\n", "• DISM: executed (no output).", out);
    if i < r.dism.len() - 1 {
        let line = concat3("↪ Fallback: attempting DISM remove-provisioned for '", r.dism[i + 1].as_str(), "'");
        push_line(&mut r.log, line.as_str());
        r.stage = Stage::Dism(i + 1);
        assert(r.log@ =~= r0.log@ + advance(r0.stage, r0.pattern@, r0.elevated, r0.dism_view(), out@).0);
        Some(dism_script(r, i + 1))
    } else {
        push_line(&mut r.log, "→ Fallback: checking Get-StartApps for AppID/Name -> derive family -> Remove-AppxPackage");
        r.stage = Stage::StartApps;
        assert(r.log@ =~= r0.log@ + advance(r0.stage, r0.pattern@, r0.elevated, r0.dism_view(), out@).0);
        Some(RemovalScript::StartApps)
    }
}

fn step_fallbacks(r: &mut Removal, out: &str) -> (next: Option<RemovalScript>)
    requires
        old(r).wf(),
        old(r).stage is StartApps || old(r).stage is Winget || old(r).stage is Registry,
    ensures
        stepped(*old(r), *final(r), out@, next),
{
    let ghost r0 = *r;
    if let Stage::StartApps = r.stage {
        log_block(
            &mut r.log,
            "• Get-StartApps fallback output:\n",
            "• Get-StartApps: no matching AppID/Name or no removable package found via family.",
            out,
        );
        push_line(&mut r.log, "→ Fallback: checking winget for MSIX/WinGet-managed entries and attempting uninstall");
        r.stage = Stage::Winget;
        assert(r.log@ =~= r0.log@ + advance(r0.stage, r0.pattern@, r0.elevated, r0.dism_view(), out@).0);
        Some(RemovalScript::Winget)
    } else if let Stage::Winget = r.stage {
        log_block(&mut r.log, "• winget fallback output:\n", "• winget: no matching entries found or winget not available.", out);
        push_line(&mut r.log, "→ Fallback: checking registry uninstall keys for Win32 installers and attempting execution");
        r.stage = Stage::Registry;
        assert(r.log@ =~= r0.log@ + advance(r0.stage, r0.pattern@, r0.elevated, r0.dism_view(), out@).0);
        Some(RemovalScript::RegistryUninstall)
    } else {
        log_block(
            &mut r.log,
            "• registry uninstall attempts output:\n",
            "• registry uninstall: no matching uninstall strings found (or none executed).",
            out,
        );
        push_line(&mut r.log, "→ Final verification after removal attempts...");
        r.stage = Stage::Final;
        assert(r.log@ =~= r0.log@ + advance(r0.stage, r0.pattern@, r0.elevated, r0.dism_view(), out@).0);
        Some(RemovalScript::FinalCheck)
    }
}

fn step_final(r: &mut Removal, out: &str) -> (next: Option<RemovalScript>)
    requires
        old(r).wf(),
        old(r).stage is Final || old(r).stage is Done,
    ensures
        stepped(*old(r), *final(r), out@, next),
{
    if let Stage::Done = r.stage {
        assert(r.log@ =~= r.log@ + Seq::<char>::empty());
        return None;
    }
    let still = presence_flag(out);
    let ghost before = r.log@;
    if still {
        let line = concat3("❌ After attempts, pattern '", r.pattern.as_str(), "' still matches installed traces (Appx/StartApps/provisioned).");
        push_line(&mut r.log, line.as_str());
        push_line(&mut r.log, "• Inspect outputs above for specific failure reasons (Access denied / Protected / DISM errors / winget errors).");
        assert(r.log@ =~= before + final_lines(r.pattern@, true));
    } else {
        let line = concat3("✅ Removal successful (no matching traces found for '", r.pattern.as_str(), "').");
        push_line(&mut r.log, line.as_str());
        assert(r.log@ =~= before + final_lines(r.pattern@, false));
    }
    r.stage = Stage::Done;
    None
}

/// Each step of a removal moves to a later stage, or from one DISM candidate to a
/// later one.
pub proof fn lemma_advance_moves_on(s: Stage, p: Seq<char>, elevated: bool, d: Seq<Seq<char>>, out: Seq<char>)
    requires
        d.len() <= usize::MAX,
    ensures
        ({
            let t = advance(s, p, elevated, d, out).1;
            s is Done || rank(t) > rank(s) || (s matches Stage::Dism(i) && t matches Stage::Dism(j) && j > i)
        }),
{
}

/// Takes the output `out` of the script that the removal waited for: logs what it
/// shows, moves on and returns the next script to run, or `None` once the final
/// check is logged. Each step moves to a later stage or to the next DISM
/// candidate, so a removal always comes to its end.
pub fn removal_step(r: &mut Removal, out: &str) -> (next: Option<RemovalScript>)
    requires
        old(r).wf(),
    ensures
        stepped(*old(r), *final(r), out@, next),
        old(r).stage is Done || rank(final(r).stage) > rank(old(r).stage) || (old(r).stage matches Stage::Dism(i)
            && final(r).stage matches Stage::Dism(j) && j > i),
{
    let _n = r.dism.len();
    proof {
        assert(r.dism_view().len() == r.dism@.len());
        lemma_advance_moves_on(r.stage, r.pattern@, r.elevated, r.dism_view(), out@);
    }
    match r.stage {
        Stage::Check => step_check(r, out),
        Stage::CurrentUser => step_user(r, out),
        Stage::AllUsers => step_all(r, out),
        Stage::Provisioned => step_prov(r, out),
        Stage::Dism(i) => step_dism(r, out, i),
        Stage::StartApps => step_fallbacks(r, out),
        Stage::Winget => step_fallbacks(r, out),
        Stage::Registry => step_fallbacks(r, out),
        Stage::Final => step_final(r, out),
        Stage::Done => step_final(r, out),
    }
}

/// The line of the bulk removal report for one app: `<name>: <output>`.
pub fn bulk_report_line(report: &mut String, name: &str, output: &str)
    ensures
        final(report)@ == old(report)@ + name@ + ": "@ + output@ + seq!['\n'],
{
    let line = concat3(name, ": ", output);
    push_line(report, line.as_str());
}

/// The heading of the bulk removal report.
pub fn bulk_report_heading() -> (r: String)
    ensures
        r@ == "📋 Bulk Removal Report:\n\n"@,
{
    lit("📋 Bulk Removal Report:\n\n")
}

} // verus!
