use eoliann_tools::output::{
    both_streams, command_output, powershell_output, powershell_quiet_output, winget_output, winget_quiet_output,
    ProcessOutput,
};

fn run(success: bool, code: Option<i32>, out: &str, err: &str) -> ProcessOutput {
    ProcessOutput { success, code, stdout: out.as_bytes().to_vec(), stderr: err.as_bytes().to_vec() }
}

#[test]
fn command_output_appends_error_stream() {
    assert_eq!(command_output(&run(true, Some(0), "a", "")), "a");
    assert_eq!(command_output(&run(true, Some(0), "a", "  \n")), "a");
    assert_eq!(command_output(&run(false, Some(1), "a", "boom")), "a\nboom");
    assert_eq!(command_output(&run(false, Some(1), "a\n", "boom")), "a\nboom");
    assert_eq!(command_output(&run(false, Some(1), "", "boom")), "\nboom");
}

#[test]
fn command_output_decodes_invalid_utf8_lossily() {
    let o = ProcessOutput { success: true, code: Some(0), stdout: vec![b'o', 0xff, b'k'], stderr: vec![] };
    assert_eq!(command_output(&o), "o\u{FFFD}k");
}

#[test]
fn powershell_output_marks_errors() {
    assert_eq!(powershell_output(&run(true, Some(0), "out", "")), "out");
    assert_eq!(powershell_output(&run(false, Some(1), "out", "bad")), "out\n⚠ ERROR: bad");
    assert_eq!(powershell_output(&run(false, Some(1), "", "bad")), "⚠ ERROR: bad");
    assert_eq!(powershell_output(&run(true, Some(0), "  \n", "")), "⚠ No output returned.");
    assert_eq!(powershell_output(&run(true, Some(0), "", "")), "⚠ No output returned.");
}

#[test]
fn winget_messages() {
    assert_eq!(winget_output(&run(true, Some(0), "", "")), "SUCCESS: winget command completed.");
    assert_eq!(winget_output(&run(true, Some(0), " done \n", "")), "SUCCESS: winget command completed.\ndone");
    assert_eq!(winget_output(&run(false, Some(5), "", "")), "ERROR: winget command failed (exit 5).");
    assert_eq!(winget_output(&run(false, None, "x", "y")), "ERROR: winget command failed (exit unknown).\nx\ny");
    assert_eq!(winget_quiet_output(&run(true, Some(0), "  ", "")), "SUCCESS: winget finished successfully.");
    assert_eq!(winget_quiet_output(&run(true, Some(0), " ok ", "")), "SUCCESS: ok");
    assert_eq!(winget_quiet_output(&run(false, Some(-1978335212), "o", " e ")), "ERROR: winget failed (code -1978335212): e");
    assert_eq!(winget_quiet_output(&run(false, Some(2), "o", "")), "ERROR: winget failed (code 2): o");
    assert_eq!(winget_quiet_output(&run(false, None, "", "")), "ERROR: winget failed (code -1).");
}

#[test]
fn quiet_powershell_messages() {
    assert_eq!(powershell_quiet_output(&run(true, Some(0), " ", "\n")), "SUCCESS: PowerShell finished.");
    assert_eq!(powershell_quiet_output(&run(true, Some(0), "a", "b")), "SUCCESS: PowerShell finished.\na\nb");
    assert_eq!(
        powershell_quiet_output(&run(false, Some(3), "a", "b")),
        "ERROR: PowerShell failed (code: Some(3)).\nSTDOUT:\na\nSTDERR:\nb"
    );
    assert_eq!(
        powershell_quiet_output(&run(false, None, "", "")),
        "ERROR: PowerShell failed (code: None).\nSTDOUT:\n\nSTDERR:\n"
    );
    assert_eq!(both_streams(&run(true, Some(0), "a", "b")), "ab");
}
