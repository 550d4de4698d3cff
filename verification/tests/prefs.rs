use eoliann_tools::prefs::{
    apply_saved_targets, bitlocker_list_outcome, fill_desired, keep_desired, legacy_c_status, load_flags,
    parse_manage_bde_status, prefs_to_save, protection_change_line, protection_changes, protector_args,
    reset_general, update_task_args, update_task_outcome, BitlockerVolume, PrefFlags, PrefsFile,
};

fn vol(m: &str, p: Option<bool>, d: Option<bool>) -> BitlockerVolume {
    BitlockerVolume { mount: m.to_string(), protection_on: p, desired_on: d }
}

fn flags() -> PrefFlags {
    PrefFlags {
        enable_tooltips: false,
        auto_check_updates: true,
        mouse_accel_enabled: true,
        numlock_enabled: false,
        taskbar_search_enabled: true,
        taskbar_widgets_enabled: false,
        snap_enabled: true,
        sticky_enabled: false,
        taskview_enabled: true,
        verbose_logon_enabled: false,
        bitlocker_protection_on: false,
    }
}

#[test]
fn bde_status_is_parsed_and_sorted() {
    let out = "BitLocker Drive Encryption\n\nVolume D: [Data]\n    Protection Status:    Protection On\n\nVolume C: [OS]\n    Conversion Status: Used Space Only Encrypted\n    Protection Status:    Protection On\nVolume \\\\?\\Volume{x}\n    Protection Status: Protection Off\n";
    let v = parse_manage_bde_status(out);
    assert_eq!(v.len(), 2);
    assert_eq!(v[0].mount, "C:");
    assert_eq!(v[0].protection_on, Some(true));
    assert_eq!(v[1].mount, "D:");
    assert_eq!(v[1].desired_on, None);
    let none = parse_manage_bde_status("Volume E:\n");
    assert_eq!(none.len(), 1);
    assert_eq!(none[0].protection_on, None);
    assert_eq!(bitlocker_list_outcome(false, "", "denied").err().unwrap(), "denied");
}

#[test]
fn bde_protection_off_reads_off() {
    let v = parse_manage_bde_status("Volume C: [OS]\n    Protection Status:    Protection Off\n");
    assert_eq!(v.len(), 1);
    assert_eq!(v[0].mount, "C:");
    assert_eq!(v[0].protection_on, Some(false));
    assert_eq!(v[0].desired_on, None);
    let on = parse_manage_bde_status("Volume C: [OS]\n    Protection Status:    Protection On\n");
    assert_eq!(on[0].protection_on, Some(true));
}

#[test]
fn bde_last_status_line_decides() {
    let off_then_on = "Volume D:\n Protection Status: Protection Off\n Protection Status: Protection On\n";
    assert_eq!(parse_manage_bde_status(off_then_on)[0].protection_on, Some(true));
    let on_then_off = "Volume D:\n Protection Status: Protection On\n Protection Status: Protection Off\n";
    assert_eq!(parse_manage_bde_status(on_then_off)[0].protection_on, Some(false));
}

#[test]
fn saved_prefs_round_trip() {
    let vols = vec![vol("C:", Some(false), Some(true)), vol("D:", Some(true), Some(false)), vol("E:", None, None)];
    let saved: PrefsFile = prefs_to_save(&flags(), &vols);
    assert!(saved.bitlocker_protection_on);
    assert!(saved.mouse_accel_enabled && !saved.enable_tooltips);
    let mut loaded = flags();
    loaded.mouse_accel_enabled = false;
    load_flags(&mut loaded, &saved);
    assert!(loaded.mouse_accel_enabled);
    assert!(loaded.bitlocker_protection_on);
    let mut fresh = vec![vol("D:", Some(true), None), vol("C:", Some(false), None), vol("F:", Some(true), None)];
    apply_saved_targets(&mut fresh, &saved);
    assert_eq!(fresh[0].desired_on, Some(false));
    assert_eq!(fresh[1].desired_on, Some(true));
    assert_eq!(fresh[2].desired_on, Some(true));
    reset_general(&mut loaded);
    assert!(loaded.enable_tooltips && loaded.auto_check_updates);
}

#[test]
fn bitlocker_panel_logic() {
    assert!(legacy_c_status(&vec![vol("c:", Some(true), None)], false));
    assert!(!legacy_c_status(&vec![vol("D:", Some(true), None)], false));
    assert!(legacy_c_status(&vec![vol("C:", None, None)], true));
    let mut vs = vec![vol("C:", Some(true), None), vol("D:", None, None), vol("E:", Some(false), Some(true))];
    fill_desired(&mut vs);
    assert_eq!(vs[0].desired_on, Some(true));
    assert_eq!(vs[1].desired_on, Some(false));
    assert_eq!(vs[2].desired_on, Some(true));
    assert_eq!(protection_changes(&vs), vec![("E:".to_string(), true)]);
    let mut refreshed = vec![vol("E:", Some(true), None), vol("G:", Some(false), None)];
    keep_desired(&mut refreshed, &vs);
    assert_eq!(refreshed[0].desired_on, Some(true));
    assert_eq!(refreshed[1].desired_on, Some(false));
    assert_eq!(protector_args("C:", true), vec!["-protectors", "-enable", "C:"]);
    assert_eq!(protector_args("C:", false), vec!["-protectors", "-disable", "C:"]);
    assert_eq!(protection_change_line("C:", true, true, "done"), "BitLocker C: -> ON OK: done");
    assert_eq!(protection_change_line("D:", false, false, "x"), "BitLocker D: -> OFF FAILED: x");
}

#[test]
fn update_check_task() {
    assert_eq!(update_task_args(false), vec!["/Delete", "/TN", "Eoliann_EWT_CheckWindowsUpdate", "/F"]);
    assert_eq!(update_task_args(true).len(), 12);
    assert_eq!(update_task_outcome(true, true, "").unwrap(), "Scheduled task created: Eoliann_EWT_CheckWindowsUpdate");
    assert_eq!(update_task_outcome(true, false, "e").unwrap_err(), "schtasks create failed: e");
    assert_eq!(
        update_task_outcome(false, false, "ERROR: The system cannot find the file specified.").unwrap(),
        "Scheduled task not present (nothing to delete)"
    );
    assert_eq!(update_task_outcome(false, false, "other").unwrap_err(), "schtasks delete failed: other");
    assert_eq!(update_task_outcome(false, true, "").unwrap(), "Scheduled task removed: Eoliann_EWT_CheckWindowsUpdate");
}

#[test]
fn default_prefs() {
    let p = PrefsFile::default();
    assert!(p.enable_tooltips && p.auto_check_updates && !p.numlock_enabled);
    assert!(p.bitlocker_volumes.is_empty());
}
