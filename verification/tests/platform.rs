use eoliann_tools::platform::{
    elevated_from_token, is_elevated, key_combo_events, ps_exit_code, relaunch_as_admin, runtime_key_installed,
    runtime_key_paths, shell_execute_outcome, typed_key_codes, vc_download_outcome, vc_download_script,
    vc_install_outcome, vc_install_script, vc_result_message, vc_signature_outcome, vc_signature_script,
};

#[test]
fn elevation() {
    assert!(is_elevated());
    assert!(relaunch_as_admin().is_ok());
    assert!(elevated_from_token(true, true, 1));
    assert!(!elevated_from_token(true, true, 0));
    assert!(!elevated_from_token(false, true, 1));
    assert!(!elevated_from_token(true, false, 1));
    assert!(shell_execute_outcome(42).is_ok());
    assert_eq!(shell_execute_outcome(5).unwrap_err(), "ShellExecuteW failed (code 5)");
    assert_eq!(shell_execute_outcome(-2).unwrap_err(), "ShellExecuteW failed (code -2)");
}

#[test]
fn key_strokes() {
    assert_eq!(key_combo_events(0x5B, 0x52), vec![(0x5B, false), (0x52, false), (0x52, true), (0x5B, true)]);
    assert_eq!(typed_key_codes("regedit"), vec![0x52, 0x45, 0x47, 0x45, 0x44, 0x49, 0x54]);
    assert_eq!(typed_key_codes("Re x!"), vec![0x52, 0x45]);
}

#[test]
fn visual_cpp_runtime() {
    assert!(runtime_key_installed(Some(1), false));
    assert!(!runtime_key_installed(Some(0), false));
    assert!(runtime_key_installed(None, true));
    assert!(!runtime_key_installed(None, false));
    assert!(runtime_key_paths().1.starts_with("SOFTWARE\\WOW6432Node\\"));
    assert_eq!(ps_exit_code(Some(3)), Ok(3));
    assert_eq!(ps_exit_code(None).unwrap_err(), "PowerShell ended without an exit code.");
    assert!(vc_download_outcome(0).is_ok());
    assert_eq!(vc_download_outcome(1).unwrap_err(), "Download failed. PowerShell exit code: 1");
    assert_eq!(
        vc_signature_outcome(21).unwrap_err(),
        "Downloaded installer failed Microsoft Authenticode verification. Exit code: 21"
    );
    assert!(vc_install_outcome(0).is_ok());
    assert!(vc_install_outcome(3010).is_ok());
    assert!(vc_install_outcome(1638).is_ok());
    assert_eq!(vc_install_outcome(1603).unwrap_err(), "VC++ Redistributable installer failed. Exit code: 1603");
    assert!(vc_download_script("C:\\Users\\O'Neil\\vc.exe").contains("-OutFile 'C:\\Users\\O''Neil\\vc.exe' -UseBasicParsing"));
    assert!(vc_signature_script("C:\\a.exe").starts_with("$sig = Get-AuthenticodeSignature -FilePath 'C:\\a.exe';"));
    assert!(vc_install_script("C:\\a.exe").ends_with("-Wait -PassThru; exit $p.ExitCode"));
    let (err, msg) = vc_result_message(&Ok(()), true);
    assert!(!err);
    assert!(msg.starts_with("Microsoft Visual C++ Runtime was installed successfully."));
    let (err, _) = vc_result_message(&Ok(()), false);
    assert!(err);
    let (err, msg) = vc_result_message(&Err("Download failed.".to_string()), false);
    assert!(err);
    assert!(msg.contains("Error:\nDownload failed.\n\n"));
}
