//! Upgrading all installed apps: winget and Chocolatey are checked, installed
//! or updated, checked again, and then each available one upgrades everything.
//!
//! The caller runs each requested command and hands back its outcome; the
//! steps decide what comes next and what the log shows.
use vstd::prelude::*;

use crate::install::spaced;
use crate::log::push_line;
use crate::order::texts;
use crate::text::{concat2, concat3, i32_text, int_decimal, lit};

verus! {

/// What the upgrade asks its caller to do next.
pub enum UpgradeAction {
    /// Run `<manager> --version` and report whether it succeeded.
    Check(String),
    /// Run this program with these arguments and report how it ended.
    Run(String, Vec<String>),
    /// Nothing more.
    Done,
}

/// Where an upgrade stands.
#[derive(Clone, Copy, PartialEq, Eq, Structural)]
pub enum UpgradeStage {
    CheckWinget,
    CheckChoco,
    WingetSetup,
    ChocoSetup,
    RecheckWinget,
    RecheckChoco,
    UpgradeChoco,
    UpgradeWinget,
    Done,
}

/// An upgrade in progress: its stage, what the checks found and its log.
pub struct Upgrade {
    pub stage: UpgradeStage,
    pub winget: bool,
    pub choco: bool,
    pub log: String,
}

/// Logs a message as a line of its own.
pub open spec fn msg(s: Seq<char>) -> Seq<char> {
    s + seq!['\n']
}

/// What the check of `manager` logs.
pub open spec fn check_msg(manager: Seq<char>, ok: bool) -> Seq<char> {
    if ok {
        msg(manager + " is installed"@)
    } else {
        msg(manager + " not found"@)
    }
}

/// The command that installs winget (App Installer).
pub open spec fn winget_install_command() -> Seq<char> {
    "Add-AppxPackage -Path (Invoke-WebRequest -Uri 'https://github.com/microsoft/winget-cli/releases/latest/download/Microsoft.DesktopAppInstaller_8wekyb3d8bbwe.msixbundle' -OutFile '$env:TEMP\\winget.msixbundle' -PassThru).Path"@
}

/// The script that installs Chocolatey.
pub open spec fn choco_install_script() -> Seq<char> {
    "[System.Net.ServicePointManager]::SecurityProtocol = [System.Net.ServicePointManager]::SecurityProtocol -bor 3072; iex ((New-Object System.Net.WebClient).DownloadString('https://community.chocolatey.org/install.ps1'))"@
}

/// Whether `a` asks to run `program` with `args`.
pub open spec fn runs(a: UpgradeAction, program: Seq<char>, args: Seq<Seq<char>>) -> bool {
    a matches UpgradeAction::Run(p, v) && p@ == program && texts(v@) == args
}

/// Whether `a` asks to check `manager`.
pub open spec fn checks(a: UpgradeAction, manager: Seq<char>) -> bool {
    a matches UpgradeAction::Check(m) && m@ == manager
}

/// What setting up Chocolatey logs: it is installed when missing, else updated.
pub open spec fn choco_setup_log(choco: bool) -> Seq<char> {
    if !choco {
        msg("Installing Chocolatey..."@) + msg("Installing Chocolatey..."@)
    } else {
        msg("Updating Chocolatey..."@)
    }
}

/// Whether `a` is the command that sets up Chocolatey.
pub open spec fn choco_setup_action(a: UpgradeAction, choco: bool) -> bool {
    if !choco {
        runs(a, "powershell"@, seq!["-NoProfile"@, "-ExecutionPolicy"@, "Bypass"@, "-Command"@, choco_install_script()])
    } else {
        runs(a, "choco"@, seq!["upgrade"@, "chocolatey"@, "-y"@])
    }
}

/// Starts an upgrade: winget is checked first.
pub fn upgrade_start() -> (r: (Upgrade, UpgradeAction))
    ensures
        r.0.stage == UpgradeStage::CheckWinget,
        r.0.log@.len() == 0,
        checks(r.1, "winget"@),
{
    (Upgrade { stage: UpgradeStage::CheckWinget, winget: false, choco: false, log: String::new() }, UpgradeAction::Check(lit("winget")))
}

fn log_check(log: &mut String, manager: &str, ok: bool)
    ensures
        final(log)@ == old(log)@ + check_msg(manager@, ok),
{
    if ok {
        push_line(log, concat2(manager, " is installed").as_str());
    } else {
        push_line(log, concat2(manager, " not found").as_str());
    }
}

fn run(program: &str, args: Vec<String>) -> (a: UpgradeAction)
    ensures
        runs(a, program@, texts(args@)),
{
    UpgradeAction::Run(lit(program), args)
}

/// The action that sets up Chocolatey, after what the check found, and what it logs.
fn choco_setup(u: &mut Upgrade) -> (a: UpgradeAction)
    ensures
        final(u).winget == old(u).winget,
        final(u).choco == old(u).choco,
        final(u).stage == UpgradeStage::ChocoSetup,
        final(u).log@ == old(u).log@ + choco_setup_log(old(u).choco),
        choco_setup_action(a, old(u).choco),
{
    u.stage = UpgradeStage::ChocoSetup;
    if !u.choco {
        push_line(&mut u.log, "Installing Chocolatey...");
        push_line(&mut u.log, "Installing Chocolatey...");
        let args = vec![
            lit("-NoProfile"),
            lit("-ExecutionPolicy"),
            lit("Bypass"),
            lit("-Command"),
            lit(
                "[System.Net.ServicePointManager]::SecurityProtocol = [System.Net.ServicePointManager]::SecurityProtocol -bor 3072; iex ((New-Object System.Net.WebClient).DownloadString('https://community.chocolatey.org/install.ps1'))",
            ),
        ];
        assert(texts(args@) =~= seq!["-NoProfile"@, "-ExecutionPolicy"@, "Bypass"@, "-Command"@, choco_install_script()]);
        run("powershell", args)
    } else {
        push_line(&mut u.log, "Updating Chocolatey...");
        let args = vec![lit("upgrade"), lit("chocolatey"), lit("-y")];
        assert(texts(args@) =~= seq!["upgrade"@, "chocolatey"@, "-y"@]);
        run("choco", args)
    }
}

/// The last steps once both managers were checked again, from stage `st`: each
/// available one upgrades everything, Chocolatey first; with neither there is
/// an error. The log's addition and the next stage.
pub open spec fn last_steps(st: UpgradeStage, winget: bool, choco: bool) -> (Seq<char>, UpgradeStage) {
    if st == UpgradeStage::RecheckChoco && !winget && !choco {
        (msg("ERROR: No package managers available!"@), UpgradeStage::Done)
    } else if st == UpgradeStage::RecheckChoco && choco {
        (msg("\n=== Upgrading apps via Chocolatey ==="@), UpgradeStage::UpgradeChoco)
    } else if st != UpgradeStage::UpgradeWinget && winget {
        (msg("\n=== Upgrading apps via Winget ==="@), UpgradeStage::UpgradeWinget)
    } else {
        (msg("\n=== Upgrade process completed ==="@), UpgradeStage::Done)
    }
}

/// The action of each of the last stages.
pub open spec fn last_action(st: UpgradeStage, a: UpgradeAction) -> bool {
    if st == UpgradeStage::UpgradeChoco {
        runs(a, "choco"@, seq!["upgrade"@, "all"@, "-y"@])
    } else if st == UpgradeStage::UpgradeWinget {
        runs(a, "winget"@, seq!["upgrade"@, "--all"@, "--silent"@])
    } else {
        a is Done
    }
}

fn final_steps(u: &mut Upgrade) -> (a: UpgradeAction)
    requires
        old(u).stage == UpgradeStage::RecheckChoco || old(u).stage == UpgradeStage::UpgradeChoco
            || old(u).stage == UpgradeStage::UpgradeWinget,
    ensures
        final(u).winget == old(u).winget,
        final(u).choco == old(u).choco,
        final(u).log@ == old(u).log@ + last_steps(old(u).stage, old(u).winget, old(u).choco).0,
        final(u).stage == last_steps(old(u).stage, old(u).winget, old(u).choco).1,
        last_action(final(u).stage, a),
{
    if u.stage == UpgradeStage::RecheckChoco && !u.winget && !u.choco {
        push_line(&mut u.log, "ERROR: No package managers available!");
        u.stage = UpgradeStage::Done;
        return UpgradeAction::Done;
    }
    if u.stage == UpgradeStage::RecheckChoco && u.choco {
        push_line(&mut u.log, "\n=== Upgrading apps via Chocolatey ===");
        u.stage = UpgradeStage::UpgradeChoco;
        let args = vec![lit("upgrade"), lit("all"), lit("-y")];
        assert(texts(args@) =~= seq!["upgrade"@, "all"@, "-y"@]);
        return run("choco", args);
    }
    if u.stage != UpgradeStage::UpgradeWinget && u.winget {
        push_line(&mut u.log, "\n=== Upgrading apps via Winget ===");
        u.stage = UpgradeStage::UpgradeWinget;
        let args = vec![lit("upgrade"), lit("--all"), lit("--silent")];
        assert(texts(args@) =~= seq!["upgrade"@, "--all"@, "--silent"@]);
        return run("winget", args);
    }
    push_line(&mut u.log, "\n=== Upgrade process completed ===");
    u.stage = UpgradeStage::Done;
    UpgradeAction::Done
}

/// Once both managers were checked again, every available one upgrades
/// everything before the upgrade ends: Chocolatey first when it is available,
/// then winget when it is available (whether or not Chocolatey was), and the end
/// only after that; with neither there is an error and the end.
pub proof fn lemma_available_managers_upgrade(winget: bool, choco: bool)
    ensures
        choco ==> last_steps(UpgradeStage::RecheckChoco, winget, choco) == (
            msg("\n=== Upgrading apps via Chocolatey ==="@),
            UpgradeStage::UpgradeChoco,
        ),
        !choco && winget ==> last_steps(UpgradeStage::RecheckChoco, winget, choco) == (
            msg("\n=== Upgrading apps via Winget ==="@),
            UpgradeStage::UpgradeWinget,
        ),
        !choco && !winget ==> last_steps(UpgradeStage::RecheckChoco, winget, choco) == (
            msg("ERROR: No package managers available!"@),
            UpgradeStage::Done,
        ),
        winget ==> last_steps(UpgradeStage::UpgradeChoco, winget, choco) == (
            msg("\n=== Upgrading apps via Winget ==="@),
            UpgradeStage::UpgradeWinget,
        ),
        !winget ==> last_steps(UpgradeStage::UpgradeChoco, winget, choco) == (
            msg("\n=== Upgrade process completed ==="@),
            UpgradeStage::Done,
        ),
        last_steps(UpgradeStage::UpgradeWinget, winget, choco) == (
            msg("\n=== Upgrade process completed ==="@),
            UpgradeStage::Done,
        ),
        forall|a: UpgradeAction| #[trigger] last_action(UpgradeStage::UpgradeWinget, a) ==> runs(
            a,
            "winget"@,
            seq!["upgrade"@, "--all"@, "--silent"@],
        ),
        forall|a: UpgradeAction| #[trigger] last_action(UpgradeStage::UpgradeChoco, a) ==> runs(
            a,
            "choco"@,
            seq!["upgrade"@, "all"@, "-y"@],
        ),
        forall|a: UpgradeAction| #[trigger] last_action(UpgradeStage::Done, a) ==> a is Done,
{
}

/// Takes the outcome of the last action (whether the check or the run
/// succeeded) and returns the next action. Checks are logged; a run is logged
/// by [`command_log`] before this step.
pub fn upgrade_step(u: &mut Upgrade, ok: bool) -> (a: UpgradeAction)
    ensures
        old(u).log@.is_prefix_of(final(u).log@),
        old(u).stage == UpgradeStage::CheckWinget ==> final(u).winget == ok && final(u).stage
            == UpgradeStage::CheckChoco && checks(a, "choco"@) && final(u).log@ == old(u).log@ + check_msg(
            "winget"@,
            ok,
        ),
        old(u).stage == UpgradeStage::CheckChoco ==> final(u).choco == ok && final(u).winget == old(u).winget && (if !old(
            u,
        ).winget {
            final(u).stage == UpgradeStage::WingetSetup && runs(
                a,
                "powershell"@,
                seq!["-Command"@, winget_install_command()],
            ) && final(u).log@ == old(u).log@ + check_msg("choco"@, ok) + msg("Installing winget..."@) + msg(
                "Installing winget via App Installer..."@,
            )
        } else {
            &&& final(u).stage == UpgradeStage::ChocoSetup
            &&& final(u).log@ == old(u).log@ + check_msg("choco"@, ok) + msg("Checking winget updates..."@) + msg(
                "Winget updates automatically via Microsoft Store"@,
            ) + choco_setup_log(ok)
            &&& choco_setup_action(a, ok)
        }),
        old(u).stage == UpgradeStage::WingetSetup ==> final(u).stage == UpgradeStage::ChocoSetup && final(u).log@
            == old(u).log@ + choco_setup_log(old(u).choco) && choco_setup_action(a, old(u).choco) && final(u).winget
            == old(u).winget && final(u).choco == old(u).choco,
        old(u).stage == UpgradeStage::ChocoSetup ==> final(u).stage == UpgradeStage::RecheckWinget && checks(
            a,
            "winget"@,
        ) && final(u).log@ == old(u).log@,
        old(u).stage == UpgradeStage::RecheckWinget ==> final(u).winget == ok && final(u).stage
            == UpgradeStage::RecheckChoco && checks(a, "choco"@) && final(u).log@ == old(u).log@ + check_msg(
            "winget"@,
            ok,
        ),
        old(u).stage == UpgradeStage::RecheckChoco ==> final(u).choco == ok && final(u).winget == old(u).winget
            && final(u).log@ == old(u).log@ + check_msg("choco"@, ok) + last_steps(old(u).stage, old(u).winget, ok).0
            && final(u).stage == last_steps(old(u).stage, old(u).winget, ok).1 && last_action(final(u).stage, a),
        old(u).stage == UpgradeStage::UpgradeChoco || old(u).stage == UpgradeStage::UpgradeWinget ==> final(u).log@
            == old(u).log@ + last_steps(old(u).stage, old(u).winget, old(u).choco).0 && final(u).stage == last_steps(
            old(u).stage,
            old(u).winget,
            old(u).choco,
        ).1 && last_action(final(u).stage, a),
        old(u).stage == UpgradeStage::Done ==> a is Done && final(u).stage == UpgradeStage::Done && final(u).log@
            == old(u).log@,
        a is Done <==> final(u).stage == UpgradeStage::Done,
        old(u).stage == UpgradeStage::RecheckChoco && old(u).winget && !ok ==> final(u).stage
            == UpgradeStage::UpgradeWinget && runs(a, "winget"@, seq!["upgrade"@, "--all"@, "--silent"@])
            && final(u).log@ == old(u).log@ + check_msg("choco"@, ok) + msg("\n=== Upgrading apps via Winget ==="@),
        old(u).stage == UpgradeStage::RecheckChoco && ok ==> final(u).stage == UpgradeStage::UpgradeChoco && runs(
            a,
            "choco"@,
            seq!["upgrade"@, "all"@, "-y"@],
        ),
        old(u).stage == UpgradeStage::UpgradeChoco && old(u).winget ==> final(u).stage == UpgradeStage::UpgradeWinget
            && runs(a, "winget"@, seq!["upgrade"@, "--all"@, "--silent"@])
            && final(u).log@ == old(u).log@ + msg("\n=== Upgrading apps via Winget ==="@),
        old(u).stage == UpgradeStage::UpgradeChoco && !old(u).winget ==> a is Done,
        old(u).stage == UpgradeStage::UpgradeWinget ==> a is Done,
{
    proof {
        lemma_available_managers_upgrade(old(u).winget, ok);
        lemma_available_managers_upgrade(old(u).winget, old(u).choco);
    }
    let ghost l0 = u.log@;
    let a = match u.stage {
        UpgradeStage::CheckWinget => {
            log_check(&mut u.log, "winget", ok);
            u.winget = ok;
            u.stage = UpgradeStage::CheckChoco;
            UpgradeAction::Check(lit("choco"))
        },
        UpgradeStage::CheckChoco => {
            log_check(&mut u.log, "choco", ok);
            u.choco = ok;
            if !u.winget {
                push_line(&mut u.log, "Installing winget...");
                push_line(&mut u.log, "Installing winget via App Installer...");
                u.stage = UpgradeStage::WingetSetup;
                let args = vec![
                    lit("-Command"),
                    lit(
                        "Add-AppxPackage -Path (Invoke-WebRequest -Uri 'https://github.com/microsoft/winget-cli/releases/latest/download/Microsoft.DesktopAppInstaller_8wekyb3d8bbwe.msixbundle' -OutFile '$env:TEMP\\winget.msixbundle' -PassThru).Path",
                    ),
                ];
                assert(texts(args@) =~= seq!["-Command"@, winget_install_command()]);
                run("powershell", args)
            } else {
                push_line(&mut u.log, "Checking winget updates...");
                push_line(&mut u.log, "Winget updates automatically via Microsoft Store");
                choco_setup(u)
            }
        },
        UpgradeStage::WingetSetup => choco_setup(u),
        UpgradeStage::ChocoSetup => {
            u.stage = UpgradeStage::RecheckWinget;
            UpgradeAction::Check(lit("winget"))
        },
        UpgradeStage::RecheckWinget => {
            log_check(&mut u.log, "winget", ok);
            u.winget = ok;
            u.stage = UpgradeStage::RecheckChoco;
            UpgradeAction::Check(lit("choco"))
        },
        UpgradeStage::RecheckChoco => {
            log_check(&mut u.log, "choco", ok);
            u.choco = ok;
            final_steps(u)
        },
        UpgradeStage::UpgradeChoco => final_steps(u),
        UpgradeStage::UpgradeWinget => final_steps(u),
        UpgradeStage::Done => UpgradeAction::Done,
    };
    proof {
        let k = l0.len() as int;
        assert(u.log@.subrange(0, k) =~= l0);
    }
    a
}

/// What a finished command adds to the log: the command line, its output and
/// error text when not empty, and its exit code (-1 when it has none).
pub open spec fn command_entry(program: Seq<char>, args: Seq<Seq<char>>, out: Seq<char>, err: Seq<char>, code: Option<i32>) -> Seq<char> {
    "▶ "@ + program + " "@ + spaced(args) + "\n"@ + (if out.len() > 0 { out + "\n"@ } else { seq![] }) + (if err.len()
        > 0 {
        err + "\n"@
    } else {
        seq![]
    }) + "Exit code: "@ + int_decimal(
        match code {
            Some(c) => c as int,
            None => -1,
        },
    ) + "\n\n"@
}

/// Logs a finished command.
pub fn command_log(log: &mut String, program: &str, args: &Vec<String>, out: &str, err: &str, code: Option<i32>)
    ensures
        final(log)@ == old(log)@ + command_entry(program@, texts(args@), out@, err@, code),
{
    let ghost l0 = log@;
    let prefix = crate::install::stream_prefix(program, args);
    log.append("▶ ");
    log.append(prefix.as_str());
    log.append("\n");
    if !out.is_empty() {
        log.append(out);
        log.append("\n");
    }
    if !err.is_empty() {
        log.append(err);
        log.append("\n");
    }
    let c: i32 = match code {
        Some(c) => c,
        None => -1,
    };
    log.append("Exit code: ");
    log.append(i32_text(c).as_str());
    log.append("\n\n");
    proof {
        reveal_strlit(" ");
    }
    assert(log@ =~= l0 + command_entry(program@, texts(args@), out@, err@, code));
}

} // verus!
