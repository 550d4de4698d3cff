use eoliann_tools::restore::{
    delete_outcome_line, global_op_message, hibernation_labels, load_restore_points, restore_already_running,
    restore_error_line, restore_finished, restore_output_line, restore_point_label, restore_spawn_failed,
    restore_starting, restore_wait_failed, selected_label, RestorePointInfo, RestorePoints,
};

fn point(n: u32) -> RestorePointInfo {
    RestorePointInfo { sequence_number: n, created: format!("2024-01-0{}", n), description: format!("rp{}", n) }
}

#[test]
fn restore_point_log() {
    let mut log = String::new();
    restore_starting(&mut log);
    assert_eq!(log, "INFO: Starting restore point creation...");
    restore_output_line(&mut log, "INFO: Changing system to allow multiple restore points per day...");
    restore_finished(&mut log, true, "exit code: 0");
    assert_eq!(
        log,
        "INFO: Starting restore point creation...\nINFO: Changing system to allow multiple restore points per day...\nSUCCESS: Restore point creation finished successfully."
    );
    let mut log = String::from("SUCCESS: System Restore Point Created Successfully");
    restore_finished(&mut log, true, "exit code: 0");
    assert_eq!(log, "SUCCESS: System Restore Point Created Successfully");
    let mut log = String::from("a");
    restore_finished(&mut log, false, "exit code: 1");
    assert_eq!(log, "a\nERROR: PowerShell exited with status: exit code: 1.");
    let mut log = String::new();
    restore_already_running(&mut log);
    assert_eq!(log, "INFO: Restore point creation already running.");
    let mut log = String::new();
    restore_spawn_failed(&mut log, "not found");
    assert_eq!(log, "\nERROR: Failed to spawn PowerShell: not found");
    let mut log = String::from("x");
    restore_spawn_failed(&mut log, "e");
    assert_eq!(log, "x\n\nERROR: Failed to spawn PowerShell: e");
    let mut log = String::from("x");
    restore_wait_failed(&mut log, "e");
    assert_eq!(log, "x\nERROR: Failed to wait for PowerShell: e");
}

#[test]
fn restore_error_lines_get_a_level() {
    assert_eq!(restore_error_line("WARNING: careful"), "WARNING: careful");
    assert_eq!(restore_error_line("INFO: x"), "INFO: x");
    assert_eq!(restore_error_line("SUCCESS: y"), "SUCCESS: y");
    assert_eq!(restore_error_line("ERROR: z"), "ERROR: z");
    assert_eq!(restore_error_line("Access is denied"), "ERROR: Access is denied");
}

#[test]
fn one_operation_at_a_time() {
    let mut log = String::new();
    global_op_message(&mut log, "Center Taskbar Items", true);
    assert_eq!(log, "INFO: Starting Center Taskbar Items...");
    global_op_message(&mut log, "Left Taskbar Items", false);
    assert_eq!(log, "INFO: Starting Center Taskbar Items...\nINFO: Another operation is already running. Please wait...");
}

#[test]
fn restore_point_selection() {
    let mut st = RestorePoints { points: vec![], selected: Some(7) };
    let mut log = String::new();
    load_restore_points(&mut st, Ok(vec![point(3), point(7)]), &mut log);
    assert_eq!(st.selected, Some(7));
    load_restore_points(&mut st, Ok(vec![point(4), point(5)]), &mut log);
    assert_eq!(st.selected, Some(4));
    load_restore_points(&mut st, Ok(vec![]), &mut log);
    assert_eq!(st.selected, None);
    assert_eq!(log, "");
    st.selected = Some(1);
    load_restore_points(&mut st, Err("WMI".to_string()), &mut log);
    assert!(st.points.is_empty());
    assert_eq!(st.selected, None);
    assert_eq!(log, "Failed to load restore points: WMI\n");
    let st = RestorePoints { points: vec![point(2)], selected: Some(2) };
    assert_eq!(selected_label(&st), "#2 | 2024-01-02 | rp2");
    let st = RestorePoints { points: vec![point(2)], selected: Some(9) };
    assert_eq!(selected_label(&st), "Select a restore point");
    assert_eq!(restore_point_label(&point(1)), "#1 | 2024-01-01 | rp1");
}

#[test]
fn health_texts() {
    assert_eq!(hibernation_labels(true), ("Enabled".to_string(), "Disable".to_string()));
    assert_eq!(hibernation_labels(false), ("Disabled".to_string(), "Enable".to_string()));
    assert_eq!(delete_outcome_line(5, &Ok("Deleted.".to_string())), "Deleted.");
    assert_eq!(delete_outcome_line(5, &Err("denied".to_string())), "Failed to delete restore point #5: denied");
}
