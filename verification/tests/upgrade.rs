use eoliann_tools::upgrade::{command_log, upgrade_start, upgrade_step, UpgradeAction, UpgradeStage};

fn check_of(a: &UpgradeAction) -> Option<String> {
    match a {
        UpgradeAction::Check(m) => Some(m.clone()),
        _ => None,
    }
}

fn run_of(a: &UpgradeAction) -> Option<(String, Vec<String>)> {
    match a {
        UpgradeAction::Run(p, v) => Some((p.clone(), v.clone())),
        _ => None,
    }
}

#[test]
fn upgrade_with_both_managers() {
    let (mut u, a) = upgrade_start();
    assert_eq!(check_of(&a).unwrap(), "winget");
    let a = upgrade_step(&mut u, true);
    assert_eq!(check_of(&a).unwrap(), "choco");
    let a = upgrade_step(&mut u, true);
    assert_eq!(run_of(&a).unwrap(), ("choco".to_string(), vec!["upgrade".to_string(), "chocolatey".to_string(), "-y".to_string()]));
    let a = upgrade_step(&mut u, true);
    assert_eq!(check_of(&a).unwrap(), "winget");
    let a = upgrade_step(&mut u, true);
    assert_eq!(check_of(&a).unwrap(), "choco");
    let a = upgrade_step(&mut u, true);
    assert_eq!(run_of(&a).unwrap().1, vec!["upgrade", "all", "-y"]);
    let a = upgrade_step(&mut u, true);
    assert_eq!(run_of(&a).unwrap(), ("winget".to_string(), vec!["upgrade".to_string(), "--all".to_string(), "--silent".to_string()]));
    let a = upgrade_step(&mut u, true);
    assert!(matches!(a, UpgradeAction::Done));
    assert!(u.stage == UpgradeStage::Done);
    assert_eq!(
        u.log,
        "winget is installed\nchoco is installed\nChecking winget updates...\nWinget updates automatically via Microsoft Store\nUpdating Chocolatey...\nwinget is installed\nchoco is installed\n\n=== Upgrading apps via Chocolatey ===\n\n=== Upgrading apps via Winget ===\n\n=== Upgrade process completed ===\n"
    );
}

#[test]
fn upgrade_without_any_manager() {
    let (mut u, _) = upgrade_start();
    upgrade_step(&mut u, false);
    let a = upgrade_step(&mut u, false);
    let (prog, args) = run_of(&a).unwrap();
    assert_eq!(prog, "powershell");
    assert_eq!(args[0], "-Command");
    let a = upgrade_step(&mut u, false);
    let (prog, args) = run_of(&a).unwrap();
    assert_eq!(prog, "powershell");
    assert_eq!(args.len(), 5);
    upgrade_step(&mut u, false);
    upgrade_step(&mut u, false);
    let a = upgrade_step(&mut u, false);
    assert!(matches!(a, UpgradeAction::Done));
    assert!(u.log.ends_with("winget not found\nchoco not found\nERROR: No package managers available!\n"));
    assert!(u.log.starts_with("winget not found\nchoco not found\nInstalling winget...\nInstalling winget via App Installer...\nInstalling Chocolatey...\nInstalling Chocolatey...\n"));
}

#[test]
fn command_log_entries() {
    let mut log = String::new();
    command_log(&mut log, "choco", &vec!["upgrade".to_string(), "all".to_string()], "ok", "", Some(0));
    assert_eq!(log, "▶ choco upgrade all\nok\nExit code: 0\n\n");
    let mut log = String::new();
    command_log(&mut log, "winget", &vec![], "", "bad", None);
    assert_eq!(log, "▶ winget \nbad\nExit code: -1\n\n");
}
