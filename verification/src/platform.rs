//! Decisions around the operating system: elevation, the key strokes that the
//! shortcut buttons send, and the Visual C++ runtime check and installation.
use vstd::prelude::*;

use crate::text::{chars_of, concat2, concat3, int_decimal, i32_text, lit};
use crate::system::ps_single;

verus! {

/// Whether the process runs elevated, where the system has no elevation: it
/// always counts as elevated.
pub fn is_elevated() -> (r: bool)
    ensures
        r,
{
    true
}

/// Relaunching elevated, where the system has no elevation: there is nothing to
/// do, and it succeeds.
pub fn relaunch_as_admin() -> (r: Result<(), String>)
    ensures
        r is Ok,
{
    Ok(())
}

/// Whether the process runs elevated, from its token: the token could be
/// opened, its elevation could be read, and the elevation flag is not zero.
pub fn elevated_from_token(opened: bool, read: bool, token_is_elevated: u32) -> (r: bool)
    ensures
        r == (opened && read && token_is_elevated != 0),
{
    if !opened {
        return false;
    }
    if !read {
        return false;
    }
    token_is_elevated != 0
}

/// How relaunching elevated ended, from the value `ShellExecuteW` returned: above
/// 32 is success.
pub fn shell_execute_outcome(code: i64) -> (r: Result<(), String>)
    ensures
        code > 32 ==> r is Ok,
        code <= 32 ==> (r matches Err(e) && e@ == "ShellExecuteW failed (code "@ + int_decimal(code as int) + ")"@),
{
    if code <= 32 {
        Err(concat3("ShellExecuteW failed (code ", crate::text::i64_text(code).as_str(), ")"))
    } else {
        Ok(())
    }
}

/// The key events that press `modifier` with `key`: both down, then both up in
/// reverse order (`true` for a key release).
pub fn key_combo_events(modifier: u16, key: u16) -> (r: Vec<(u16, bool)>)
    ensures
        r@ == seq![(modifier, false), (key, false), (key, true), (modifier, true)],
{
    let r = vec![(modifier, false), (key, false), (key, true), (modifier, true)];
    assert(r@ =~= seq![(modifier, false), (key, false), (key, true), (modifier, true)]);
    r
}

/// The virtual-key code with which a letter of `regedit` is typed (by its upper
/// case); other characters are not typed.
pub open spec fn regedit_key(c: char) -> Option<u16> {
    if c == 'r' || c == 'R' {
        Some(0x52)
    } else if c == 'e' || c == 'E' {
        Some(0x45)
    } else if c == 'g' || c == 'G' {
        Some(0x47)
    } else if c == 'd' || c == 'D' {
        Some(0x44)
    } else if c == 'i' || c == 'I' {
        Some(0x49)
    } else if c == 't' || c == 'T' {
        Some(0x54)
    } else {
        None
    }
}

/// The keys typed for `text`, in order.
pub open spec fn typed_keys(text: Seq<char>) -> Seq<u16>
    decreases text.len(),
{
    if text.len() == 0 {
        seq![]
    } else {
        typed_keys(text.drop_last()) + match regedit_key(text.last()) {
            Some(k) => seq![k],
            None => seq![],
        }
    }
}

/// The virtual-key codes typed for `text` (the letters of `regedit`).
pub fn typed_key_codes(text: &str) -> (r: Vec<u16>)
    ensures
        r@ == typed_keys(text@),
{
    let cs = chars_of(text);
    let mut r: Vec<u16> = Vec::new();
    let mut i: usize = 0;
    while i < cs.len()
        invariant
            i <= cs.len(),
            cs@ == text@,
            r@ == typed_keys(cs@.subrange(0, i as int)),
        decreases cs.len() - i,
    {
        assert(cs@.subrange(0, i + 1).drop_last() =~= cs@.subrange(0, i as int));
        let c = cs[i];
        let k: Option<u16> = if c == 'r' || c == 'R' {
            Some(0x52)
        } else if c == 'e' || c == 'E' {
            Some(0x45)
        } else if c == 'g' || c == 'G' {
            Some(0x47)
        } else if c == 'd' || c == 'D' {
            Some(0x44)
        } else if c == 'i' || c == 'I' {
            Some(0x49)
        } else if c == 't' || c == 'T' {
            Some(0x54)
        } else {
            None
        };
        let ghost before = r@;
        match k {
            Some(code) => {
                r.push(code);
                assert(r@ =~= before + seq![code]);
            },
            None => {
                assert(r@ =~= before + Seq::<u16>::empty());
            },
        }
        i = i + 1;
    }
    assert(cs@.subrange(0, cs.len() as int) =~= cs@);
    r
}

/// Whether the Visual C++ runtime's registry key says it is installed:
/// `Installed` is 1, or there is a `Version`.
pub fn runtime_key_installed(installed: Option<u32>, has_version: bool) -> (r: bool)
    ensures
        r == ((installed matches Some(v) && v == 1) || has_version),
{
    let one = match installed {
        Some(v) => v == 1,
        None => false,
    };
    one || has_version
}

/// Where the Visual C++ runtime's registry keys are (under `HKLM`).
pub fn runtime_key_paths() -> (r: (String, String))
    ensures
        r.0@ == "SOFTWARE\\Microsoft\\VisualStudio\\14.0\\VC\\Runtimes\\x64"@,
        r.1@ == "SOFTWARE\\WOW6432Node\\Microsoft\\VisualStudio\\14.0\\VC\\Runtimes\\x64"@,
{
    (
        lit("SOFTWARE\\Microsoft\\VisualStudio\\14.0\\VC\\Runtimes\\x64"),
        lit("SOFTWARE\\WOW6432Node\\Microsoft\\VisualStudio\\14.0\\VC\\Runtimes\\x64"),
    )
}

/// The script that downloads the redistributable to `path`.
pub fn vc_download_script(path: &str) -> (r: String)
    ensures
        r@ == "$ErrorActionPreference = 'Stop'; [Net.ServicePointManager]::SecurityProtocol = [Net.SecurityProtocolType]::Tls12; Invoke-WebRequest -Uri 'https://aka.ms/vc14/vc_redist.x64.exe' -OutFile '"@
            + ps_single(path@) + "' -UseBasicParsing"@,
{
    concat3(
        "$ErrorActionPreference = 'Stop'; [Net.ServicePointManager]::SecurityProtocol = [Net.SecurityProtocolType]::Tls12; Invoke-WebRequest -Uri 'https://aka.ms/vc14/vc_redist.x64.exe' -OutFile '",
        crate::system::ps_escape_single_quotes(path).as_str(),
        "' -UseBasicParsing",
    )
}

/// The script that checks the Microsoft Authenticode signature of `path`.
pub fn vc_signature_script(path: &str) -> (r: String)
    ensures
        r@ == "$sig = Get-AuthenticodeSignature -FilePath '"@ + ps_single(path@)
            + "'; if ($sig.Status -ne 'Valid') { exit 20 }; if ($null -eq $sig.SignerCertificate) { exit 21 }; if ($sig.SignerCertificate.Subject -notmatch 'Microsoft') { exit 22 }; exit 0"@,
{
    concat3(
        "$sig = Get-AuthenticodeSignature -FilePath '",
        crate::system::ps_escape_single_quotes(path).as_str(),
        "'; if ($sig.Status -ne 'Valid') { exit 20 }; if ($null -eq $sig.SignerCertificate) { exit 21 }; if ($sig.SignerCertificate.Subject -notmatch 'Microsoft') { exit 22 }; exit 0",
    )
}

/// The script that runs the installer at `path` quietly and exits with its code.
pub fn vc_install_script(path: &str) -> (r: String)
    ensures
        r@ == "$p = Start-Process -FilePath '"@ + ps_single(path@)
            + "' -ArgumentList '/install','/passive','/norestart' -Wait -PassThru; exit $p.ExitCode"@,
{
    concat3(
        "$p = Start-Process -FilePath '",
        crate::system::ps_escape_single_quotes(path).as_str(),
        "' -ArgumentList '/install','/passive','/norestart' -Wait -PassThru; exit $p.ExitCode",
    )
}

/// The exit code of a PowerShell run, or the error that it has none.
pub fn ps_exit_code(code: Option<i32>) -> (r: Result<i32, String>)
    ensures
        code matches Some(c) ==> r == Ok::<i32, String>(c),
        code is None ==> (r matches Err(e) && e@ == "PowerShell ended without an exit code."@),
{
    match code {
        Some(c) => Ok(c),
        None => Err(lit("PowerShell ended without an exit code.")),
    }
}

/// Whether the download worked, from the script's exit code.
pub fn vc_download_outcome(code: i32) -> (r: Result<(), String>)
    ensures
        code == 0 ==> r is Ok,
        code != 0 ==> (r matches Err(e) && e@ == "Download failed. PowerShell exit code: "@ + int_decimal(code as int)),
{
    if code == 0 {
        Ok(())
    } else {
        Err(concat2("Download failed. PowerShell exit code: ", i32_text(code).as_str()))
    }
}

/// Whether the installer is signed by Microsoft, from the check's exit code.
pub fn vc_signature_outcome(code: i32) -> (r: Result<(), String>)
    ensures
        code == 0 ==> r is Ok,
        code != 0 ==> (r matches Err(e) && e@
            == "Downloaded installer failed Microsoft Authenticode verification. Exit code: "@ + int_decimal(code as int)),
{
    if code == 0 {
        Ok(())
    } else {
        Err(concat2("Downloaded installer failed Microsoft Authenticode verification. Exit code: ", i32_text(code).as_str()))
    }
}

/// Whether the installation worked, from the installer's exit code: 0, 3010
/// (restart needed) and 1638 (a newer version is installed) are success.
pub fn vc_install_outcome(code: i32) -> (r: Result<(), String>)
    ensures
        (code == 0 || code == 3010 || code == 1638) ==> r is Ok,
        !(code == 0 || code == 3010 || code == 1638) ==> (r matches Err(e) && e@
            == "VC++ Redistributable installer failed. Exit code: "@ + int_decimal(code as int)),
{
    if code == 0 || code == 3010 || code == 1638 {
        Ok(())
    } else {
        Err(concat2("VC++ Redistributable installer failed. Exit code: ", i32_text(code).as_str()))
    }
}

/// What is shown after the redistributable was to be installed: whether it is
/// an error, and the message.
pub fn vc_result_message(installed: &Result<(), String>, present_after: bool) -> (r: (bool, String))
    ensures
        installed is Ok && present_after ==> !r.0 && r.1@
            == "Microsoft Visual C++ Runtime was installed successfully.\n\nThe application will continue to start."@,
        installed is Ok && !present_after ==> r.0 && r.1@
            == "The Microsoft Visual C++ Redistributable installer finished, but the runtime could not be confirmed.\n\nPlease restart Windows and try again."@,
        installed matches Err(e) ==> r.0 && r.1@
            == "Microsoft Visual C++ Runtime is missing and could not be installed automatically.\n\nError:\n"@ + e@
            + "\n\nYou can install it manually from Microsoft:\nhttps://aka.ms/vc14/vc_redist.x64.exe"@,
{
    match installed {
        Ok(_) => {
            if present_after {
                (false, lit("Microsoft Visual C++ Runtime was installed successfully.\n\nThe application will continue to start."))
            } else {
                (
                    true,
                    lit(
                        "The Microsoft Visual C++ Redistributable installer finished, but the runtime could not be confirmed.\n\nPlease restart Windows and try again.",
                    ),
                )
            }
        },
        Err(e) => (
            true,
            concat3(
                "Microsoft Visual C++ Runtime is missing and could not be installed automatically.\n\nError:\n",
                e.as_str(),
                "\n\nYou can install it manually from Microsoft:\nhttps://aka.ms/vc14/vc_redist.x64.exe",
            ),
        ),
    }
}

} // verus!
