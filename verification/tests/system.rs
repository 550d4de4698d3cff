use eoliann_tools::output::ProcessOutput;
use eoliann_tools::system::{
    attempt_outcome, bool_arg, brave_outcome, context_menu_outcome, context_menu_switch_args, crlf_to_lf_text,
    dns_plan, elevated_command, elevated_result, elevated_start_argument, explorer_restart_outcome,
    explorer_tab_features, extensions_first_outcome, extensions_second_outcome, gpedit_activation_log,
    gpedit_commands, gpedit_plan, integrity_checks, integrity_header, logged_script_text, network_fix_report,
    network_reset_commands, network_reset_report, network_status, override_key_path, override_values,
    override_written, overrides_removed_report, power_timeout_commands, ps_escape_single_quotes,
    recycle_bin_outcome, script_outcome, secure_defaults_report, tabs_report, tabs_should_disable,
    taskbar_centered, temp_clean_outcome, update_reset_error_line, update_reset_exit_line, value_or_unknown,
    winget_listed, DnsPlan, PowerTimeout,
};

fn run(success: bool, code: Option<i32>, out: &str, err: &str) -> ProcessOutput {
    ProcessOutput { success, code, stdout: out.as_bytes().to_vec(), stderr: err.as_bytes().to_vec() }
}

#[test]
fn dns_providers() {
    match dns_plan("Google").unwrap() {
        DnsPlan::Static(a, b) => assert_eq!((a.as_str(), b.as_str()), ("8.8.8.8", "8.8.4.4")),
        DnsPlan::Automatic => panic!("expected static"),
    }
    match dns_plan("Quad9").unwrap() {
        DnsPlan::Static(a, b) => assert_eq!((a.as_str(), b.as_str()), ("9.9.9.9", "149.112.112.112")),
        DnsPlan::Automatic => panic!("expected static"),
    }
    match dns_plan("dns0.eu_KIDS").unwrap() {
        DnsPlan::Static(a, b) => assert_eq!((a.as_str(), b.as_str()), ("193.110.81.1", "185.253.5.1")),
        DnsPlan::Automatic => panic!("expected static"),
    }
    assert!(matches!(dns_plan("Automatic (DHCP)").unwrap(), DnsPlan::Automatic));
    assert_eq!(dns_plan("Nope").err().unwrap(), "❌ Unknown DNS provider");
}

#[test]
fn taskbar_probe_reads_last_nonblank_line() {
    assert!(taskbar_centered("0\r\n1\r\n\r\n"));
    assert!(!taskbar_centered("1\n0\n"));
    assert!(!taskbar_centered(""));
    assert!(taskbar_centered("  1  "));
    assert!(!taskbar_centered("11"));
}

#[test]
fn winget_list_detection() {
    assert!(winget_listed(true, b"Name Id Version\nBrave Brave.Brave 1.0"));
    assert!(!winget_listed(true, b"No installed package found matching input criteria."));
    assert!(!winget_listed(false, b"Brave"));
}

#[test]
fn explorer_tabs_overrides() {
    assert_eq!(explorer_tab_features(), vec![37634385, 39145991, 36354489]);
    assert_eq!(
        override_key_path(37634385),
        "SYSTEM\\CurrentControlSet\\Control\\FeatureManagement\\Overrides\\4\\37634385"
    );
    assert_eq!(override_values(true), (2, 0));
    assert_eq!(override_values(false), (1, 1));
    assert_eq!(override_written(7, true), "Feature 7 -> registry updated (EnabledState=2)");
    assert_eq!(override_written(7, false), "Feature 7 -> registry updated (EnabledState=1)");
}

#[test]
fn explorer_tabs_majority_rule() {
    assert!(!tabs_should_disable(&vec![None, None, None]));
    assert!(tabs_should_disable(&vec![Some(2), Some(1), None]));
    assert!(!tabs_should_disable(&vec![Some(2), Some(1), Some(1)]));
    assert!(tabs_should_disable(&vec![Some(2), Some(2), Some(2)]));
    assert!(!tabs_should_disable(&vec![Some(1), Some(0), Some(1)]));
}

#[test]
fn explorer_tabs_reports() {
    let ok = tabs_report(
        &vec![(1, Ok("Feature 1 -> registry updated (EnabledState=2)".to_string()))],
        &Ok("Explorer restarted (taskkill + explorer start).".to_string()),
    );
    assert_eq!(
        ok.unwrap(),
        "OK: Feature 1 -> registry updated (EnabledState=2)\nNote: Explorer may need to be restarted or the system rebooted for changes to take effect.\nExplorer restarted (taskkill + explorer start).\n"
    );
    let bad = tabs_report(&vec![(1, Ok("a".to_string())), (2, Err("denied".to_string()))], &Err("x".to_string()));
    assert_eq!(
        bad.unwrap_err(),
        "OK: a\nERR: feature 2 -> denied\nNote: Explorer may need to be restarted or the system rebooted for changes to take effect.\nWarning: automatic Explorer restart failed: x\n"
    );
    let removed = overrides_removed_report(&vec![(3, Ok(())), (4, Err("gone".to_string()))], &Ok("r".to_string()));
    assert_eq!(
        removed.unwrap_err(),
        "Removed override key for 3\nFailed to remove 4: gone\nNote: some changes may be restored by Task Scheduler / management agents; reboot recommended.\nr\n"
    );
    assert_eq!(
        explorer_restart_outcome(Err("e".to_string()), Ok(())).unwrap_err(),
        "Failed to run taskkill for explorer: e"
    );
    assert_eq!(explorer_restart_outcome(Ok(()), Err("s".to_string())).unwrap_err(), "Failed to start explorer.exe: s");
    assert_eq!(
        explorer_restart_outcome(Ok(()), Ok(())).unwrap(),
        "Explorer restarted (taskkill + explorer start)."
    );
}

#[test]
fn script_outcomes() {
    assert_eq!(script_outcome(&run(true, Some(0), " DONE \n", "warn")).unwrap(), "DONE");
    assert_eq!(script_outcome(&run(true, Some(0), "  ", " warn ")).unwrap(), "warn");
    assert_eq!(script_outcome(&run(false, Some(1), "out", " err ")).unwrap_err(), "err");
    assert_eq!(script_outcome(&run(false, Some(1), " out ", "")).unwrap_err(), "out");
    assert_eq!(bool_arg(true), "True");
    assert_eq!(bool_arg(false), "False");
}

#[test]
fn file_extension_outcomes() {
    assert_eq!(extensions_first_outcome(&Ok(run(true, Some(0), " OK: HideFileExt set to 0 ", ""))).unwrap().unwrap(), "OK: HideFileExt set to 0");
    assert_eq!(extensions_first_outcome(&Ok(run(true, Some(0), "", " w "))).unwrap().unwrap(), "w");
    assert_eq!(extensions_first_outcome(&Ok(run(true, Some(0), "", ""))).unwrap().unwrap(), "OK");
    assert_eq!(extensions_first_outcome(&Ok(run(false, Some(2), "o", "e"))).unwrap().unwrap_err(), "e");
    assert_eq!(extensions_first_outcome(&Ok(run(false, Some(2), "o", ""))).unwrap().unwrap_err(), "o");
    assert!(extensions_first_outcome(&Ok(run(false, Some(2), "", ""))).is_none());
    assert!(extensions_first_outcome(&Err("spawn".to_string())).is_none());
    assert_eq!(extensions_second_outcome(None, &Ok(run(true, Some(0), "", ""))).unwrap(), "OK");
    assert_eq!(extensions_second_outcome(None, &Ok(run(true, Some(0), " y ", ""))).unwrap(), "y");
    assert_eq!(
        extensions_second_outcome(None, &Ok(run(false, Some(1), "", " z "))).unwrap_err(),
        "powershell failed and pwsh failed: z"
    );
    assert_eq!(
        extensions_second_outcome(None, &Err("nf".to_string())).unwrap_err(),
        "powershell failed and pwsh spawn error: nf"
    );
    assert_eq!(
        extensions_second_outcome(Some("e1".to_string()), &Ok(run(false, Some(1), "", "z"))).unwrap_err(),
        "powershell spawn error: e1; pwsh failed: z"
    );
    assert_eq!(
        extensions_second_outcome(Some("e1".to_string()), &Err("e2".to_string())).unwrap_err(),
        "powershell spawn error: e1; pwsh spawn error: e2"
    );
}

#[test]
fn windows_update_reset_lines() {
    assert_eq!(update_reset_error_line("boom"), "ERR: boom");
    assert_eq!(update_reset_exit_line(Some(2)), "PROCESS_EXIT:2");
    assert_eq!(update_reset_exit_line(None), "PROCESS_EXIT:-1");
}

#[test]
fn elevated_capture() {
    assert_eq!(ps_escape_single_quotes("O'Brien's"), "O''Brien''s");
    assert_eq!(
        elevated_command("C:\\T\\a.ps1", "C:\\T\\a.log"),
        "$cmd = \"& 'C:\\T\\a.ps1' *>&1 | Out-File -FilePath 'C:\\T\\a.log' -Encoding utf8; exit $LASTEXITCODE\"; $p = Start-Process -FilePath 'powershell.exe' -Verb RunAs -WindowStyle Hidden -Wait -PassThru -ArgumentList @('-NoProfile','-ExecutionPolicy','Bypass','-Command',$cmd); exit $p.ExitCode"
    );
    assert_eq!(elevated_result("log text", &run(true, Some(0), "o", "e"), "exit code: 0"), "log text");
    assert_eq!(elevated_result("  ", &run(true, Some(0), "", ""), "exit code: 0"), "Done (no output).");
    assert_eq!(
        elevated_result("", &run(false, Some(1223), " ", ""), "exit code: 1223"),
        "Operation failed (exit=exit code: 1223)."
    );
    assert_eq!(elevated_result("", &run(false, Some(1), "o", "e"), "x"), "o\ne");
    assert_eq!(elevated_result("", &run(false, Some(1), " ", "e"), "x"), "e");
}

#[test]
fn context_menu_switch() {
    assert_eq!(
        context_menu_switch_args(true),
        vec!["delete", "HKCU\\Software\\Classes\\CLSID\\{86ca1aa0-34aa-4e8b-a509-50c905bae2a2}", "/f"]
    );
    assert_eq!(
        context_menu_switch_args(false),
        vec![
            "add",
            "HKCU\\Software\\Classes\\CLSID\\{86ca1aa0-34aa-4e8b-a509-50c905bae2a2}\\InprocServer32",
            "/ve",
            "/t",
            "REG_SZ",
            "/d",
            "",
            "/f"
        ]
    );
    assert_eq!(
        context_menu_outcome(true, &Ok(run(true, Some(0), "", ""))),
        "✅ Switched to Windows 11 context menu.\n🔄 Explorer restarted. Changes applied instantly!"
    );
    assert_eq!(
        context_menu_outcome(false, &Ok(run(true, Some(0), "", ""))),
        "✅ Switched to Classic context menu.\n🔄 Explorer restarted. Changes applied instantly!"
    );
    assert_eq!(context_menu_outcome(false, &Ok(run(false, Some(1), "", "Access denied"))), "Access denied");
    assert_eq!(context_menu_outcome(true, &Err("no reg".to_string())), "Error: no reg");
}

#[test]
fn cleanup_outcomes() {
    assert_eq!(temp_clean_outcome(b"  \n"), "Temporary files cleaned successfully.");
    assert_eq!(temp_clean_outcome(b" in use \n"), "Temporary files cleaned with warnings:\nin use");
    assert_eq!(recycle_bin_outcome(b""), "Recycle Bin is already empty or items were in use.");
    assert_eq!(recycle_bin_outcome(b"Deleting a\n"), "Recycle Bin cleanup:\nDeleting a\n");
    assert_eq!(network_reset_commands(), vec!["netsh winsock reset", "ipconfig /flushdns", "ipconfig /release", "ipconfig /renew"]);
    assert_eq!(
        network_reset_report(&vec!["a\n".to_string(), "b".to_string()]),
        "a\nb\nℹ For full effect, a restart might be required."
    );
}

#[test]
fn group_policy_editor_plan() {
    assert_eq!(
        gpedit_plan(false, false, "Core").unwrap(),
        "❌ ERROR: This operation requires Administrator rights.\n\nPlease run the application as Administrator."
    );
    assert_eq!(
        gpedit_plan(true, true, "Core").unwrap(),
        "✅ Group Policy Editor is already installed and available on this system.\n\nNo action needed."
    );
    assert_eq!(
        gpedit_plan(true, false, "Professional").unwrap(),
        "✅ Not needed.\n\nGroup Policy Editor (gpedit.msc) is already included in your edition: Professional\n\nYou can open it directly with Win + R → gpedit.msc"
    );
    assert!(gpedit_plan(true, false, "Core").is_none());
    assert!(gpedit_plan(true, false, "ServerStandard").is_some());
    let (c1, c2) = gpedit_commands();
    assert!(c1.contains("GroupPolicy-ClientTools-Package"));
    assert!(c2.contains("GroupPolicy-ClientExtensions-Package"));
    let log = gpedit_activation_log("A", "B");
    assert!(log.starts_with("🚀 Windows Home detected + gpedit.msc not found.\nStarting automatic activation...\n\n"));
    assert!(log.contains("→ Adding GroupPolicy-ClientTools package...\nA\n\n→ Adding GroupPolicy-ClientExtensions package...\nB\n\n✅ SUCCESS"));
    assert!(log.ends_with("After restart, press Win + R and type: gpedit.msc"));
}

#[test]
fn network_policy() {
    let s = network_status(Some(1), None, Some(1));
    assert_eq!(s.allow_insecure_guest_auth, Some(1));
    let s = network_status(None, Some(0), Some(1));
    assert_eq!(s.allow_insecure_guest_auth, Some(0));
    assert_eq!(s.allow_insecure_guest_auth_legacy, Some(1));
    assert_eq!(s.require_security_signature, None);
    let r = network_fix_report(true, false, true, false);
    assert!(r.starts_with(
        "SUCCESS: Network Compatibility Fix fully implemented!\n\n✅ RequireSecuritySignature = 0\n✅ AllowInsecureGuestAuth (legacy) = 1\n⚠ Restart serviciu eșuat → recomand restart complet Windows\n\nIMPORTANT NOTE:\n"
    ));
    assert_eq!(
        secure_defaults_report(false, true, false),
        "SUCCESS: Secure defaults restaurate!\n\n✅ AllowInsecureGuestAuth (Policies) șters\n\nRecomand restart complet Windows."
    );
    assert_eq!(secure_defaults_report(false, false, false), "SUCCESS: Secure defaults restaurate!\n\n\n\nRecomand restart complet Windows.");
}

#[test]
fn misc_outcomes() {
    assert_eq!(value_or_unknown(Some("Professional".to_string())), "Professional");
    assert_eq!(value_or_unknown(None), "Unknown");
    assert_eq!(brave_outcome(&Ok(run(true, Some(0), " ", ""))), "SUCCESS: Brave policies applied.");
    assert_eq!(brave_outcome(&Ok(run(true, Some(0), "done\n", ""))), "done\n");
    assert_eq!(brave_outcome(&Ok(run(false, Some(1), "", " x "))), "ERROR: x");
    assert_eq!(brave_outcome(&Ok(run(false, None, "", ""))), "ERROR: PowerShell exited with code None.");
    assert_eq!(brave_outcome(&Ok(run(false, Some(1), "", ""))), "ERROR: PowerShell exited with code Some(1).");
    assert_eq!(brave_outcome(&Err("e".to_string())), "ERROR: Failed to spawn PowerShell: e");
    assert_eq!(crlf_to_lf_text("a\r\nb\r\r\n\n"), "a\nb\r\n\n");
    assert_eq!(
        logged_script_text("x\r\ny", "C:\\l.log"),
        "\nSet-StrictMode -Version Latest\ntry {\n    & {\n        x\ny\n    } 2>&1 | Out-File -FilePath \"C:\\l.log\" -Encoding UTF8 -Append\n    exit $LASTEXITCODE\n} catch {\n    $_ | Out-String | Out-File -FilePath \"C:\\l.log\" -Encoding UTF8 -Append\n    exit 1\n}\n"
    );
    assert_eq!(
        elevated_start_argument("C:\\a.ps1"),
        "-NoProfile -ExecutionPolicy Bypass -Command Start-Process powershell -ArgumentList '-NoProfile -ExecutionPolicy Bypass -File \"C:\\a.ps1\"' -Verb RunAs -Wait"
    );
    assert_eq!(
        attempt_outcome("Copilot removal for all users attempted.", "Failed to run removal", &Ok("C:\\x.log".to_string())),
        "Copilot removal for all users attempted. See log: C:\\x.log"
    );
    assert_eq!(
        attempt_outcome("Copilot removal for all users attempted.", "Failed to run removal", &Err("denied".to_string())),
        "Failed to run removal: denied"
    );
    let checks = integrity_checks();
    assert_eq!(checks.len(), 4);
    assert_eq!(checks[3].0, "sfc");
    assert_eq!(checks[0].1, vec!["/Online", "/Cleanup-Image", "/CheckHealth"]);
    assert!(integrity_header().starts_with("🔍 Starting system integrity verification..."));
    let (cmds, msg) = power_timeout_commands(PowerTimeout::Disk);
    assert_eq!(cmds, vec!["powercfg /change disk-timeout-ac 0", "powercfg /change disk-timeout-dc 0"]);
    assert_eq!(msg, "✅ HDD/SSD turn off disabled (AC + DC)");
    let (cmds, _) = power_timeout_commands(PowerTimeout::Sleep);
    assert_eq!(cmds.len(), 4);
    let (_, msg) = power_timeout_commands(PowerTimeout::Monitor);
    assert_eq!(msg, "✅ Monitor turn off disabled (AC + DC)");
}
