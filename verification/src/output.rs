//! What the tool reports of a finished process: how its standard output and
//! error streams, its exit status and its exit code are put into one message.
use vstd::prelude::*;

use crate::text::{concat2, i32_text, int_decimal, lit, trim, trim_chars, chars_of, string_of};

verus! {

/// What `String::from_utf8_lossy` makes of `b`: the text `b` encodes, each
/// invalid sequence replaced by U+FFFD.
pub uninterp spec fn lossy_text(b: Seq<u8>) -> Seq<char>;

/// Decodes process output (`String::from_utf8_lossy`).
#[verifier::external_body]
pub(crate) fn lossy(b: &[u8]) -> (r: String)
    ensures
        r@ == lossy_text(b@),
{
    String::from_utf8_lossy(b).into_owned()
}

/// A finished process: whether it exited successfully, its exit code when it
/// has one, and the bytes it wrote.
pub struct ProcessOutput {
    pub success: bool,
    pub code: Option<i32>,
    pub stdout: Vec<u8>,
    pub stderr: Vec<u8>,
}

/// `s`, ended by a newline unless it already ends with one.
pub open spec fn ends_line(s: Seq<char>) -> Seq<char> {
    if s.len() > 0 && s.last() == '\n' {
        s
    } else {
        s.push('\n')
    }
}

/// The text of a `cmd /C` run: its output and, when the error stream is not
/// blank, that stream on a line of its own.
pub open spec fn command_text(out: Seq<char>, err: Seq<char>) -> Seq<char> {
    if trim(err).len() > 0 {
        ends_line(out) + err
    } else {
        out
    }
}

/// The text of a `cmd /C` run.
pub fn command_output(o: &ProcessOutput) -> (r: String)
    ensures
        r@ == command_text(lossy_text(o.stdout@), lossy_text(o.stderr@)),
{
    let mut s = lossy(o.stdout.as_slice());
    let err = lossy(o.stderr.as_slice());
    let ec = chars_of(err.as_str());
    if trim_chars(&ec).len() > 0 {
        let sc = chars_of(s.as_str());
        if !(sc.len() > 0 && sc[sc.len() - 1] == '\n') {
            s.append("\n");
            proof {
                reveal_strlit("\n");
            }
        }
        s.append(err.as_str());
    }
    s
}

/// The text of a PowerShell run: its output, then its error stream after
/// `⚠ ERROR: ` on a new line; `⚠ No output returned.` when that is blank.
pub open spec fn powershell_text(out: Seq<u8>, err: Seq<u8>) -> Seq<char> {
    let a: Seq<char> = if out.len() > 0 {
        lossy_text(out)
    } else {
        seq![]
    };
    let b: Seq<char> = if err.len() > 0 {
        if a.len() > 0 {
            a + "\n"@ + "⚠ ERROR: "@ + lossy_text(err)
        } else {
            "⚠ ERROR: "@ + lossy_text(err)
        }
    } else {
        a
    };
    if trim(b).len() == 0 {
        "⚠ No output returned."@
    } else {
        b
    }
}

/// The text of a PowerShell run.
pub fn powershell_output(o: &ProcessOutput) -> (r: String)
    ensures
        r@ == powershell_text(o.stdout@, o.stderr@),
{
    let mut result = String::new();
    if o.stdout.len() > 0 {
        result = lossy(o.stdout.as_slice());
    }
    if o.stderr.len() > 0 {
        if !result.as_str().is_empty() {
            result.append("\n");
        }
        result.append("⚠ ERROR: ");
        result.append(lossy(o.stderr.as_slice()).as_str());
    }
    if trim_chars(&chars_of(result.as_str())).len() == 0 {
        lit("⚠ No output returned.")
    } else {
        result
    }
}

/// The exit code as `ExitStatus::code` gives it, in decimal, or `unknown`.
pub open spec fn code_text(code: Option<i32>) -> Seq<char> {
    match code {
        Some(c) => int_decimal(c as int),
        None => "unknown"@,
    }
}

/// Both streams of a run, the error stream on its own line after the output.
pub open spec fn joined_streams(out: Seq<u8>, err: Seq<u8>) -> Seq<char> {
    let a: Seq<char> = if out.len() > 0 {
        lossy_text(out)
    } else {
        seq![]
    };
    if err.len() > 0 {
        if a.len() > 0 {
            a + "\n"@ + lossy_text(err)
        } else {
            lossy_text(err)
        }
    } else {
        a
    }
}

/// The message of a `winget` run.
pub open spec fn winget_text(o: ProcessOutput) -> Seq<char> {
    let t = trim(joined_streams(o.stdout@, o.stderr@));
    if o.success {
        if t.len() == 0 {
            "SUCCESS: winget command completed."@
        } else {
            "SUCCESS: winget command completed.\n"@ + t
        }
    } else {
        let head = "ERROR: winget command failed (exit "@ + code_text(o.code) + ")."@;
        if t.len() == 0 {
            head
        } else {
            head + "\n"@ + t
        }
    }
}

fn code_string(code: Option<i32>) -> (r: String)
    ensures
        r@ == code_text(code),
{
    match code {
        Some(c) => i32_text(c),
        None => lit("unknown"),
    }
}

/// The message of a `winget` run.
pub fn winget_output(o: &ProcessOutput) -> (r: String)
    ensures
        r@ == winget_text(*o),
{
    let mut text = String::new();
    if o.stdout.len() > 0 {
        text = lossy(o.stdout.as_slice());
    }
    if o.stderr.len() > 0 {
        if !text.as_str().is_empty() {
            text.append("\n");
        }
        text.append(lossy(o.stderr.as_slice()).as_str());
    }
    let t = string_of(&trim_chars(&chars_of(text.as_str())));
    if o.success {
        if t.as_str().is_empty() {
            lit("SUCCESS: winget command completed.")
        } else {
            concat2("SUCCESS: winget command completed.\n", t.as_str())
        }
    } else {
        let mut head = concat2("ERROR: winget command failed (exit ", code_string(o.code).as_str());
        head.append(").");
        if !t.as_str().is_empty() {
            head.append("\n");
            head.append(t.as_str());
        }
        head
    }
}

/// The message of a quiet `winget` run: its trimmed output or error stream.
pub open spec fn winget_quiet_text(o: ProcessOutput) -> Seq<char> {
    let out = trim(lossy_text(o.stdout@));
    let err = trim(lossy_text(o.stderr@));
    let code = match o.code {
        Some(c) => int_decimal(c as int),
        None => int_decimal(-1),
    };
    if o.success {
        if out.len() == 0 {
            "SUCCESS: winget finished successfully."@
        } else {
            "SUCCESS: "@ + out
        }
    } else if err.len() > 0 {
        "ERROR: winget failed (code "@ + code + "): "@ + err
    } else if out.len() > 0 {
        "ERROR: winget failed (code "@ + code + "): "@ + out
    } else {
        "ERROR: winget failed (code "@ + code + ")."@
    }
}

/// The message of a quiet `winget` run.
pub fn winget_quiet_output(o: &ProcessOutput) -> (r: String)
    ensures
        r@ == winget_quiet_text(*o),
{
    let out = string_of(&trim_chars(&chars_of(lossy(o.stdout.as_slice()).as_str())));
    let err = string_of(&trim_chars(&chars_of(lossy(o.stderr.as_slice()).as_str())));
    if o.success {
        if out.as_str().is_empty() {
            lit("SUCCESS: winget finished successfully.")
        } else {
            concat2("SUCCESS: ", out.as_str())
        }
    } else {
        let code = match o.code {
            Some(c) => i32_text(c),
            None => i32_text(-1),
        };
        let mut r = concat2("ERROR: winget failed (code ", code.as_str());
        if !err.as_str().is_empty() {
            r.append("): ");
            r.append(err.as_str());
        } else if !out.as_str().is_empty() {
            r.append("): ");
            r.append(out.as_str());
        } else {
            r.append(").");
        }
        r
    }
}

/// `Option<i32>` as `{:?}` prints it.
pub open spec fn debug_code(code: Option<i32>) -> Seq<char> {
    match code {
        Some(c) => "Some("@ + int_decimal(c as int) + ")"@,
        None => "None"@,
    }
}

/// The message of a quiet PowerShell run.
pub open spec fn powershell_quiet_text(o: ProcessOutput) -> Seq<char> {
    let out = lossy_text(o.stdout@);
    let err = lossy_text(o.stderr@);
    if o.success {
        if trim(out).len() == 0 && trim(err).len() == 0 {
            "SUCCESS: PowerShell finished."@
        } else {
            "SUCCESS: PowerShell finished.\n"@ + out + "\n"@ + err
        }
    } else {
        "ERROR: PowerShell failed (code: "@ + debug_code(o.code) + ").\nSTDOUT:\n"@ + out + "\nSTDERR:\n"@ + err
    }
}

/// The message of a quiet PowerShell run.
pub fn powershell_quiet_output(o: &ProcessOutput) -> (r: String)
    ensures
        r@ == powershell_quiet_text(*o),
{
    let out = lossy(o.stdout.as_slice());
    let err = lossy(o.stderr.as_slice());
    if o.success {
        if trim_chars(&chars_of(out.as_str())).len() == 0 && trim_chars(&chars_of(err.as_str())).len() == 0 {
            lit("SUCCESS: PowerShell finished.")
        } else {
            let mut r = concat2("SUCCESS: PowerShell finished.\n", out.as_str());
            r.append("\n");
            r.append(err.as_str());
            r
        }
    } else {
        let code = match o.code {
            Some(c) => {
                let mut t = concat2("Some(", i32_text(c).as_str());
                t.append(")");
                t
            },
            None => lit("None"),
        };
        let mut r = concat2("ERROR: PowerShell failed (code: ", code.as_str());
        r.append(").\nSTDOUT:\n");
        r.append(out.as_str());
        r.append("\nSTDERR:\n");
        r.append(err.as_str());
        r
    }
}

/// Both streams of a run, one after the other, as one text.
pub fn both_streams(o: &ProcessOutput) -> (r: String)
    ensures
        r@ == lossy_text(o.stdout@) + lossy_text(o.stderr@),
{
    let mut r = lossy(o.stdout.as_slice());
    r.append(lossy(o.stderr.as_slice()).as_str());
    r
}

} // verus!
