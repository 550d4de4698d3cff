use eoliann_tools::winapp::{
    append_detect_section, detection_titles, dism_candidates, dism_command, fit_flags, group_indices,
    installed_label, like_pattern, presence_flag, processing_line, progress_at, progress_begin, progress_end,
    refresh_status_line, removal_banner, removal_step, selected_indices, uncheck, Progress,
};

#[test]
fn progress_labels() {
    let mut p = Progress::default();
    progress_begin(&mut p, 3);
    assert!(p.running);
    progress_at(&mut p, 1, "Teams");
    assert_eq!(p.label, "Teams (2/3)");
    assert_eq!(p.current, 1);
    progress_end(&mut p);
    assert!(!p.running);
    assert_eq!(p.current, 3);
    assert_eq!(p.label, "");
}

#[test]
fn removal_decisions() {
    assert_eq!(removal_step(true, false, "Teams"), (true, "ℹ Teams: Detected installed. Proceeding with removal.".to_string()));
    assert_eq!(
        removal_step(false, true, "Teams"),
        (true, "⚠ Teams: Not detected but force=true -> attempting removal anyway.".to_string())
    );
    assert_eq!(removal_step(false, false, "Teams"), (false, "ℹ Teams: Application not found. Skipping.".to_string()));
    assert_eq!(removal_banner(false, true, true), "📦 Force bulk removal started...");
    assert_eq!(removal_banner(true, false, false), "✅ Removal (selected) finished.");
    assert_eq!(processing_line("Maps"), "→ Processing: Maps");
    assert_eq!(refresh_status_line("Maps", true), "Maps -> installed");
    assert_eq!(refresh_status_line("Maps", false), "Maps -> not found");
    assert_eq!(detection_titles().len(), 6);
}

#[test]
fn selection_lists() {
    assert_eq!(selected_indices(&vec![false, true, true, false, true]), vec![1, 2, 4]);
    let groups = vec!["Games".to_string(), "Bing".to_string(), "Games".to_string()];
    assert_eq!(group_indices(&groups, &"Games".to_string()), vec![0, 2]);
    let mut flags = vec![true, false, true];
    fit_flags(&mut flags, 5);
    assert_eq!(flags, vec![true, false, true, false, false]);
    fit_flags(&mut flags, 2);
    assert_eq!(flags, vec![true, false]);
    uncheck(&mut flags, 0);
    assert_eq!(flags, vec![false, false]);
    uncheck(&mut flags, 9);
    assert_eq!(flags, vec![false, false]);
    assert_eq!(installed_label("Skype", true), "Skype (installed)");
    assert_eq!(installed_label("Skype", false), "Skype");
}

#[test]
fn detection_pieces() {
    assert_eq!(like_pattern("a'b\"c"), ("abc".to_string(), "*abc*".to_string()));
    let mut diag = String::new();
    assert!(!append_detect_section(&mut diag, "T", " \n "));
    assert_eq!(diag, "");
    assert!(append_detect_section(&mut diag, "T", "row\n\n"));
    assert_eq!(diag, "=== T ===\nrow\n\n");
    assert!(presence_flag("0\n1\n"));
    assert!(!presence_flag("1\n0"));
    assert!(!presence_flag(""));
    assert_eq!(dism_candidates("a\nREMOVED x\n b \nFAILED\n"), vec!["a".to_string(), "b".to_string()]);
    assert_eq!(dism_command("P"), "dism /Online /Remove-ProvisionedAppxPackage /PackageName:P");
}
