//! System restore points: creating one (what is logged as the PowerShell run
//! goes on), the one-operation-at-a-time rule, and the list of restore points
//! with the one selected in it.
use vstd::prelude::*;

use crate::log::{append_entry, append_joined, joined, with_entry};
use crate::text::{chars_of, concat2, concat3, contains, decimal, has_prefix, has_sub, lit, starts_with, u64_text};

verus! {

/// Logs that a restore point is being created already (nothing else is done).
pub fn restore_already_running(log: &mut String)
    ensures
        final(log)@ == joined(old(log)@, "INFO: Restore point creation already running."@),
{
    append_joined(log, "INFO: Restore point creation already running.");
}

/// Logs the start of a restore point's creation.
pub fn restore_starting(log: &mut String)
    ensures
        final(log)@ == joined(old(log)@, "INFO: Starting restore point creation..."@),
{
    append_joined(log, "INFO: Starting restore point creation...");
}

/// Whether a line already carries a level: `ERROR:`, `WARNING:`, `INFO:` or
/// `SUCCESS:`.
pub open spec fn has_level(line: Seq<char>) -> bool {
    has_prefix(line, "ERROR:"@) || has_prefix(line, "WARNING:"@) || has_prefix(line, "INFO:"@) || has_prefix(
        line,
        "SUCCESS:"@,
    )
}

/// A line of the error stream as it is logged: as it is when it carries a level,
/// else after `ERROR: `.
pub fn restore_error_line(line: &str) -> (r: String)
    ensures
        has_level(line@) ==> r@ == line@,
        !has_level(line@) ==> r@ == "ERROR: "@ + line@,
{
    let l = chars_of(line);
    if starts_with(&l, &chars_of("ERROR:")) || starts_with(&l, &chars_of("WARNING:")) || starts_with(
        &l,
        &chars_of("INFO:"),
    ) || starts_with(&l, &chars_of("SUCCESS:")) {
        lit(line)
    } else {
        concat2("ERROR: ", line)
    }
}

/// Logs a line that the PowerShell run printed.
pub fn restore_output_line(log: &mut String, line: &str)
    ensures
        final(log)@ == joined(old(log)@, line@),
{
    append_joined(log, line);
}

/// Logs how the run ended: on success a closing `SUCCESS:` line unless one was
/// logged already; on failure the exit status.
pub fn restore_finished(log: &mut String, success: bool, status: &str)
    ensures
        success && has_sub(old(log)@, "SUCCESS:"@) ==> final(log)@ == old(log)@,
        success && !has_sub(old(log)@, "SUCCESS:"@) ==> final(log)@ == joined(
            old(log)@,
            "SUCCESS: Restore point creation finished successfully."@,
        ),
        !success ==> final(log)@ == joined(old(log)@, "ERROR: PowerShell exited with status: "@ + status@ + "."@),
{
    if success {
        if !contains(&chars_of(log.as_str()), &chars_of("SUCCESS:")) {
            append_joined(log, "SUCCESS: Restore point creation finished successfully.");
        }
    } else {
        let m = concat3("ERROR: PowerShell exited with status: ", status, ".");
        append_joined(log, m.as_str());
    }
}

/// Logs that PowerShell could not be started. The message is set off by an empty
/// line (and starts with a newline when the log was empty).
pub fn restore_spawn_failed(log: &mut String, err: &str)
    ensures
        final(log)@ == old(log)@ + (if old(log)@.len() > 0 { "\n"@ } else { seq![] })
            + "\nERROR: Failed to spawn PowerShell: "@ + err@,
{
    if !log.as_str().is_empty() {
        log.append("\n");
    }
    log.append("\nERROR: Failed to spawn PowerShell: ");
    log.append(err);
}

/// Logs that waiting for PowerShell failed.
pub fn restore_wait_failed(log: &mut String, err: &str)
    ensures
        final(log)@ == joined(old(log)@, "ERROR: Failed to wait for PowerShell: "@ + err@),
{
    let m = concat2("ERROR: Failed to wait for PowerShell: ", err);
    append_joined(log, m.as_str());
}

/// Logs the outcome of trying to start an operation while at most one may run:
/// it starts, or it is refused because another one runs.
pub fn global_op_message(log: &mut String, op_name: &str, acquired: bool)
    ensures
        acquired ==> final(log)@ == joined(old(log)@, "INFO: Starting "@ + op_name@ + "..."@),
        !acquired ==> final(log)@ == joined(old(log)@, "INFO: Another operation is already running. Please wait..."@),
{
    if acquired {
        let m = concat3("INFO: Starting ", op_name, "...");
        append_joined(log, m.as_str());
    } else {
        append_joined(log, "INFO: Another operation is already running. Please wait...");
    }
}

/// A system restore point.
pub struct RestorePointInfo {
    pub sequence_number: u32,
    pub created: String,
    pub description: String,
}

/// The list of restore points and the one selected.
pub struct RestorePoints {
    pub points: Vec<RestorePointInfo>,
    pub selected: Option<u32>,
}

/// Whether some restore point has sequence number `n`.
pub open spec fn has_point(points: Seq<RestorePointInfo>, n: u32) -> bool {
    exists|i: int| 0 <= i < points.len() && (#[trigger] points[i]).sequence_number == n
}

/// The selection after the list is loaded: kept when its point is still listed,
/// else the first point (none when the list is empty).
pub open spec fn reselected(points: Seq<RestorePointInfo>, sel: Option<u32>) -> Option<u32> {
    match sel {
        Some(n) => if has_point(points, n) {
            Some(n)
        } else if points.len() > 0 {
            Some(points[0].sequence_number)
        } else {
            None
        },
        None => if points.len() > 0 {
            Some(points[0].sequence_number)
        } else {
            None
        },
    }
}

/// The position of the restore point with sequence number `n`, if listed.
pub fn find_point(points: &Vec<RestorePointInfo>, n: u32) -> (r: Option<usize>)
    ensures
        match r {
            Some(i) => i < points@.len() && points@[i as int].sequence_number == n && forall|j: int|
                0 <= j < i ==> (#[trigger] points@[j]).sequence_number != n,
            None => !has_point(points@, n),
        },
{
    let mut i: usize = 0;
    while i < points.len()
        invariant
            i <= points.len(),
            forall|j: int| 0 <= j < i ==> (#[trigger] points@[j]).sequence_number != n,
        decreases points.len() - i,
    {
        if points[i].sequence_number == n {
            return Some(i);
        }
        i = i + 1;
    }
    None
}

/// Takes the loaded list of restore points, or logs why it could not be loaded
/// (then the list is empty and nothing is selected).
pub fn load_restore_points(state: &mut RestorePoints, loaded: Result<Vec<RestorePointInfo>, String>, log: &mut String)
    ensures
        loaded matches Ok(points) ==> final(state).points@ == points@ && final(state).selected == reselected(
            points@,
            old(state).selected,
        ) && final(log)@ == old(log)@,
        loaded matches Err(e) ==> final(state).points@.len() == 0 && final(state).selected is None && final(log)@
            == with_entry(old(log)@, "Failed to load restore points: "@ + e@),
{
    match loaded {
        Ok(points) => {
            state.points = points;
            let keep = match state.selected {
                Some(n) => find_point(&state.points, n).is_some(),
                None => false,
            };
            if !keep {
                state.selected = if state.points.len() > 0 {
                    Some(state.points[0].sequence_number)
                } else {
                    None
                };
            }
        },
        Err(e) => {
            let m = concat2("Failed to load restore points: ", e.as_str());
            append_entry(log, m.as_str());
            state.points = Vec::new();
            state.selected = None;
        },
    }
}

/// How a restore point is shown: `#<number> | <created> | <description>`.
pub fn restore_point_label(p: &RestorePointInfo) -> (r: String)
    ensures
        r@ == "#"@ + decimal(p.sequence_number as nat) + " | "@ + p.created@ + " | "@ + p.description@,
{
    let mut r = concat3("#", u64_text(p.sequence_number as u64).as_str(), " | ");
    r.append(p.created.as_str());
    r.append(" | ");
    r.append(p.description.as_str());
    r
}

/// The label of the selected restore point, or `Select a restore point`.
pub fn selected_label(state: &RestorePoints) -> (r: String)
    ensures
        match state.selected {
            Some(n) => if has_point(state.points@, n) {
                exists|i: int| 0 <= i < state.points@.len() && state.points@[i].sequence_number == n && r@ == "#"@
                    + decimal(n as nat) + " | "@ + state.points@[i].created@ + " | "@ + state.points@[i].description@
            } else {
                r@ == "Select a restore point"@
            },
            None => r@ == "Select a restore point"@,
        },
{
    match state.selected {
        Some(n) => match find_point(&state.points, n) {
            Some(i) => restore_point_label(&state.points[i]),
            None => lit("Select a restore point"),
        },
        None => lit("Select a restore point"),
    }
}

/// The hibernation state as shown, and the label of the button that flips it.
pub fn hibernation_labels(enabled: bool) -> (r: (String, String))
    ensures
        r.0@ == if enabled { "Enabled"@ } else { "Disabled"@ },
        r.1@ == if enabled { "Disable"@ } else { "Enable"@ },
{
    if enabled {
        (lit("Enabled"), lit("Disable"))
    } else {
        (lit("Disabled"), lit("Enable"))
    }
}

/// What deleting the restore point `n` logs: the tool's message, or why it failed.
pub fn delete_outcome_line(n: u32, outcome: &Result<String, String>) -> (r: String)
    ensures
        outcome matches Ok(m) ==> r@ == m@,
        outcome matches Err(e) ==> r@ == "Failed to delete restore point #"@ + decimal(n as nat) + ": "@ + e@,
{
    match outcome {
        Ok(m) => lit(m.as_str()),
        Err(e) => {
            let mut r = concat3("Failed to delete restore point #", u64_text(n as u64).as_str(), ": ");
            r.append(e.as_str());
            r
        },
    }
}

/// After the list is loaded, the selection is a listed restore point, and
/// nothing is selected only when the list is empty; a selection that is still
/// listed is kept.
pub proof fn lemma_reselected_is_listed(points: Seq<RestorePointInfo>, sel: Option<u32>)
    ensures
        reselected(points, sel) matches Some(n) ==> has_point(points, n),
        reselected(points, sel) is None <==> points.len() == 0,
        sel matches Some(n) && has_point(points, n) ==> reselected(points, sel) == sel,
{
    if points.len() > 0 {
        assert(points[0].sequence_number == points[0].sequence_number);
    }
}

} // verus!
