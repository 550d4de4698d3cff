use eoliann_tools::removal::{bulk_report_heading, bulk_report_line, removal_start, removal_step, RemovalScript, Stage};

fn is_script(a: &Option<RemovalScript>, want: &str) -> bool {
    match a {
        Some(RemovalScript::PresenceCheck) => want == "presence",
        Some(RemovalScript::RemoveCurrentUser) => want == "user",
        Some(RemovalScript::RemoveAllUsers) => want == "all",
        Some(RemovalScript::RemoveProvisioned) => want == "prov",
        Some(RemovalScript::Dism(c)) => want == c.as_str(),
        Some(RemovalScript::StartApps) => want == "start",
        Some(RemovalScript::Winget) => want == "winget",
        Some(RemovalScript::RegistryUninstall) => want == "reg",
        Some(RemovalScript::FinalCheck) => want == "final",
        None => want == "none",
    }
}

#[test]
fn removal_not_elevated_skips_system_wide_steps() {
    let (mut r, first) = removal_start("Clip'champ", false);
    assert!(matches!(first, RemovalScript::PresenceCheck));
    assert_eq!(r.safe, "Clipchamp");
    assert_eq!(r.like, "*Clipchamp*");
    assert_eq!(r.log, "Starting removal for pattern 'Clip'champ'\n");

    let a = removal_step(&mut r, "\r\n0\r\n");
    assert!(is_script(&a, "user"));
    let a = removal_step(&mut r, "   ");
    assert!(is_script(&a, "start"));
    let a = removal_step(&mut r, "[StartApps] AppID: x\n");
    assert!(is_script(&a, "winget"));
    let a = removal_step(&mut r, "");
    assert!(is_script(&a, "reg"));
    let a = removal_step(&mut r, "");
    assert!(is_script(&a, "final"));
    let a = removal_step(&mut r, "0\n");
    assert!(is_script(&a, "none"));
    assert!(matches!(r.stage, Stage::Done));
    let expected = "Starting removal for pattern 'Clip'champ'\n\
Application not found on system (by Appx/StartApps/provisioned checks). Will still try winget/registry fallbacks.\n\
→ Attempting Remove-AppxPackage (current user)...\n\
• current-user: no matching PackageFullName (or no output).\n\
⚠ Not elevated — skipping -AllUsers Remove-AppxPackage. Relaunch as Administrator to attempt system-wide removals.\n\
→ Fallback: checking Get-StartApps for AppID/Name -> derive family -> Remove-AppxPackage\n\
• Get-StartApps fallback output:\n[StartApps] AppID: x\n\
→ Fallback: checking winget for MSIX/WinGet-managed entries and attempting uninstall\n\
• winget: no matching entries found or winget not available.\n\
→ Fallback: checking registry uninstall keys for Win32 installers and attempting execution\n\
• registry uninstall: no matching uninstall strings found (or none executed).\n\
→ Final verification after removal attempts...\n\
✅ Removal successful (no matching traces found for 'Clip'champ').\n";
    assert_eq!(r.log, expected);
    // a finished removal stays finished
    let before = r.log.clone();
    assert!(removal_step(&mut r, "1").is_none());
    assert_eq!(r.log, before);
}

#[test]
fn removal_elevated_tries_dism_on_each_candidate() {
    let (mut r, _) = removal_start("Microsoft.BingNews", true);
    assert!(is_script(&removal_step(&mut r, "1"), "user"));
    assert!(is_script(&removal_step(&mut r, "removed"), "all"));
    assert!(is_script(&removal_step(&mut r, ""), "prov"));
    let prov = "[Prov] PkgA\n[Prov] REMOVED: PkgA\n\n  PkgB  \n[Prov] FAILED: PkgC -> x\n";
    let a = removal_step(&mut r, prov);
    assert!(is_script(&a, "dism /Online /Remove-ProvisionedAppxPackage /PackageName:[Prov] PkgA"));
    assert!(matches!(r.stage, Stage::Dism(0)));
    assert_eq!(r.dism, vec!["[Prov] PkgA".to_string(), "PkgB".to_string()]);
    let a = removal_step(&mut r, "ok");
    assert!(is_script(&a, "dism /Online /Remove-ProvisionedAppxPackage /PackageName:PkgB"));
    let a = removal_step(&mut r, "");
    assert!(is_script(&a, "start"));
    removal_step(&mut r, "");
    removal_step(&mut r, "");
    removal_step(&mut r, "");
    let a = removal_step(&mut r, "x\n1");
    assert!(a.is_none());
    assert!(r.log.contains("• current-user output:\nremoved\n→ Elevated: attempting Remove-AppxPackage (-AllUsers)...\n• all-users: no matching PackageFullName (or no output).\n"));
    assert!(r.log.contains("↪ Fallback: attempting DISM remove-provisioned for 'PkgB'\n• DISM: executed (no output).\n"));
    assert!(r.log.ends_with(
        "❌ After attempts, pattern 'Microsoft.BingNews' still matches installed traces (Appx/StartApps/provisioned).\n\
• Inspect outputs above for specific failure reasons (Access denied / Protected / DISM errors / winget errors).\n"
    ));
}

#[test]
fn bulk_report_lines() {
    let mut rep = bulk_report_heading();
    bulk_report_line(&mut rep, "Teams", "done");
    assert_eq!(rep, "📋 Bulk Removal Report:\n\nTeams: done\n");
}
