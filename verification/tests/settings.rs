use std::sync::{Arc, Mutex};

use eoliann_tools::system::{taskbar_alignment, theme_command};

#[test]
fn test_show_settings_usage() {
    let log_output = Arc::new(Mutex::new(String::new()));
    *log_output.lock().unwrap() = String::from("test");
    assert_eq!(&*log_output.lock().unwrap(), "test");
}

#[test]
fn theme_modes_map_to_reg_commands() {
    assert_eq!(
        theme_command("dark").unwrap(),
        "reg add HKCU\\Software\\Microsoft\\Windows\\CurrentVersion\\Themes\\Personalize /v AppsUseLightTheme /t REG_DWORD /d 0 /f"
    );
    assert_eq!(
        theme_command("light").unwrap(),
        "reg add HKCU\\Software\\Microsoft\\Windows\\CurrentVersion\\Themes\\Personalize /v AppsUseLightTheme /t REG_DWORD /d 1 /f"
    );
    assert_eq!(theme_command("blue").unwrap_err(), "Invalid mode");
    assert_eq!(theme_command("Dark").unwrap_err(), "Invalid mode");
}

#[test]
fn taskbar_alignment_values() {
    assert_eq!(taskbar_alignment(true), (1, "Center".to_string()));
    assert_eq!(taskbar_alignment(false), (0, "Left".to_string()));
}
