use eoliann_tools::performance::{
    all_settings, load_setting, load_startup_apps, mark_initialized, set_setting, setting_name, startup_toggle_line,
    PerfSetting, PerformanceState, StartupAppEntry,
};

#[test]
fn settings_load_and_toggle() {
    let mut st = PerformanceState::default();
    assert!(!st.initialized && !st.hags_enabled && st.startup_apps.is_empty());
    let mut log = String::new();
    load_setting(&mut st, PerfSetting::Hags, Ok(true), &mut log);
    assert!(st.hags_enabled);
    assert!(!st.vbs_enabled);
    load_setting(&mut st, PerfSetting::Vbs, Err("access denied".to_string()), &mut log);
    assert_eq!(log, "Failed to load vbs_enabled: access denied\n");
    set_setting(&mut st, PerfSetting::NetworkTaskOffload, true);
    assert!(st.network_task_offload_enabled);
    set_setting(&mut st, PerfSetting::Hags, false);
    assert!(!st.hags_enabled);
    assert!(st.network_task_offload_enabled);
    mark_initialized(&mut st);
    assert!(st.initialized);
    assert_eq!(all_settings().len(), 15);
    assert_eq!(setting_name(PerfSetting::UltimatePerformance), "ultimate_performance_enabled");
}

#[test]
fn startup_entries() {
    let mut st = PerformanceState::default();
    let mut log = String::from("x");
    let item = StartupAppEntry { name: "App".into(), scope: "HKCU".into(), command: "app.exe".into(), enabled: true };
    load_startup_apps(&mut st, Ok(vec![item]), &mut log);
    assert_eq!(st.startup_apps.len(), 1);
    load_startup_apps(&mut st, Err("boom".to_string()), &mut log);
    assert!(st.startup_apps.is_empty());
    assert_eq!(log, "x\nFailed to read startup apps: boom\n");
    assert_eq!(startup_toggle_line("App", &Ok("Enabled App".to_string())), "Enabled App");
    assert_eq!(startup_toggle_line("App", &Err("no".to_string())), "Failed to update startup app 'App': no");
}
