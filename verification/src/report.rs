//! The crash report artifact: its file name, the notification texts, and
//! the full report document — header, host inventory block and the
//! child's decoded output, in that fixed order, separated by visible
//! delimiters.

use vstd::prelude::*;
use crate::chars::string_from_chars;
use crate::digits::{spec_dec_signed, i64_dec_chars};
use crate::gpu::HostOs;
use crate::timestamp::{Timestamp, spec_compact, spec_human, compact_text, human_text};
use crate::transcode::{gbk_decoded, decode_captured};

verus! {

/// The file-manager command that reveals the written log on each
/// platform family.
pub open spec fn spec_reveal_command(os: HostOs) -> Seq<char> {
    match os {
        HostOs::Windows => "explorer"@,
        HostOs::MacOs => "open"@,
        HostOs::Linux => "xdg-open"@,
    }
}

/// The file-manager command that reveals the written log.
pub fn reveal_command(os: HostOs) -> (r: String)
    ensures
        r@ == spec_reveal_command(os),
{
    match os {
        HostOs::Windows => String::from_str("explorer"),
        HostOs::MacOs => String::from_str("open"),
        HostOs::Linux => String::from_str("xdg-open"),
    }
}

/// The exit code a report shows when the child left none: the sentinel
/// for a signal-killed child.
pub open spec fn spec_report_code(code: Option<i32>) -> int {
    match code {
        Some(c) => c as int,
        None => -1,
    }
}

/// The crash log's file name: `crash_log_<compact timestamp>.log`,
/// sortable and unique to the second.
pub open spec fn spec_log_file_name(t: Timestamp) -> Seq<char> {
    "crash_log_"@ + spec_compact(t) + ".log"@
}

/// The crash log's path relative to the working directory: under the
/// `logs` subdirectory.
pub open spec fn spec_log_rel_path(t: Timestamp) -> Seq<char> {
    "logs/"@ + spec_log_file_name(t)
}

/// The report document. Fixed order: header naming the program, the
/// human-readable time and the exit code; a delimiter; the host
/// inventory; a delimiter; the decoded output block.
pub open spec fn spec_report_doc(
    program: Seq<char>,
    when: Seq<char>,
    code: Option<i32>,
    inventory: Seq<char>,
    out_text: Seq<char>,
    err_text: Seq<char>,
) -> Seq<char> {
    "Application '"@ + program + "' encountered an unexpected and unrecoverable error at "@ + when
        + " and has crashed.\n"@ + "Exit code: "@ + spec_dec_signed(spec_report_code(code))
        + " \n"@
        + "Please submit this log to the software maintainers to help us resolve the issue.\n"@
        + "--------------------\n"@ + inventory + "\n"@ + "--------------------\n"@
        + "Below is all the output information from this application from startup to crash:\n\n"@
        + out_text + "\n"@ + err_text + "\n"@
}

/// The text of the modal that announces a crash and names the written
/// log's absolute path.
pub open spec fn spec_crash_dialog_text(program: Seq<char>, file_path: Seq<char>) -> Seq<char> {
    program + " Main Program\n"@
        + "An unexpected or unrecoverable error has occurred, and the program has crashed.\n\n"@
        + "Crash log generated: "@ + file_path + "\n\n"@
        + "Please check the log and submit it to the software maintainers."@
}

/// The text of the modal shown when the child program is missing.
pub open spec fn spec_missing_program_text(program: Seq<char>) -> Seq<char> {
    "Cannot find the "@ + program + " core program.\n\n"@ + "This indicates that the "@ + program
        + " program files are corrupted.\n\n"@ + "Please try reinstalling to resolve this issue."@
}

/// The text of the modal shown when the child could not be started.
pub open spec fn spec_spawn_failed_text(detail: Seq<char>) -> Seq<char> {
    "Unable to start core program: "@ + detail
        + ". Please check program file permissions or integrity."@
}

/// The crash log's file name for the moment `t`.
pub fn log_file_name(t: &Timestamp) -> (r: String)
    ensures
        r@ == spec_log_file_name(*t),
{
    let mut out = String::from_str("crash_log_");
    let ts = compact_text(t);
    out.append(ts.as_str());
    out.append(".log");
    proof {
        assert(out@ =~= spec_log_file_name(*t));
    }
    out
}

/// The crash log's path relative to the working directory.
pub fn log_rel_path(t: &Timestamp) -> (r: String)
    ensures
        r@ == spec_log_rel_path(*t),
{
    let mut out = String::from_str("logs/");
    let name = log_file_name(t);
    out.append(name.as_str());
    proof {
        assert(out@ =~= spec_log_rel_path(*t));
    }
    out
}

/// Compose the full report document from already-decoded output, exactly
/// per [`spec_report_doc`].
pub fn compose_report(
    program: &str,
    when: &str,
    code: Option<i32>,
    inventory: &str,
    out_text: &str,
    err_text: &str,
) -> (doc: String)
    ensures
        doc@ == spec_report_doc(program@, when@, code, inventory@, out_text@, err_text@),
{
    let mut doc = String::from_str("Application '");
    doc.append(program);
    doc.append("' encountered an unexpected and unrecoverable error at ");
    doc.append(when);
    doc.append(" and has crashed.\n");
    doc.append("Exit code: ");
    let code_num: i64 = match code {
        Some(c) => c as i64,
        None => -1,
    };
    let code_chars = i64_dec_chars(code_num);
    let code_text = string_from_chars(&code_chars);
    doc.append(code_text.as_str());
    doc.append(" \n");
    doc.append("Please submit this log to the software maintainers to help us resolve the issue.\n");
    doc.append("--------------------\n");
    doc.append(inventory);
    doc.append("\n");
    doc.append("--------------------\n");
    doc.append("Below is all the output information from this application from startup to crash:\n\n");
    doc.append(out_text);
    doc.append("\n");
    doc.append(err_text);
    doc.append("\n");
    proof {
        assert(doc@ =~= spec_report_doc(
            program@,
            when@,
            code,
            inventory@,
            out_text@,
            err_text@,
        ));
    }
    doc
}

/// Compose the full report document from the raw captured output,
/// decoding it from the legacy encoding on the way: the document of
/// [`spec_report_doc`] over the decoded streams and the human-readable
/// form of `t`.
pub fn compose_crash_report(
    program: &str,
    t: &Timestamp,
    code: Option<i32>,
    inventory: &str,
    raw_stdout: &Vec<u8>,
    raw_stderr: &Vec<u8>,
) -> (doc: String)
    ensures
        doc@ == spec_report_doc(
            program@,
            spec_human(*t),
            code,
            inventory@,
            gbk_decoded(raw_stdout@),
            gbk_decoded(raw_stderr@),
        ),
{
    let when = human_text(t);
    let out_text = decode_captured(raw_stdout);
    let err_text = decode_captured(raw_stderr);
    compose_report(
        program,
        when.as_str(),
        code,
        inventory,
        out_text.as_str(),
        err_text.as_str(),
    )
}

/// The crash-notification modal's text, naming the written log.
pub fn crash_dialog_text(program: &str, file_path: &str) -> (r: String)
    ensures
        r@ == spec_crash_dialog_text(program@, file_path@),
{
    let mut out = String::from_str("");
    out.append(program);
    out.append(" Main Program\n");
    out.append("An unexpected or unrecoverable error has occurred, and the program has crashed.\n\n");
    out.append("Crash log generated: ");
    out.append(file_path);
    out.append("\n\n");
    out.append("Please check the log and submit it to the software maintainers.");
    proof {
        reveal_strlit("");
        assert(out@ =~= spec_crash_dialog_text(program@, file_path@));
    }
    out
}

/// The missing-program modal's text.
pub fn missing_program_text(program: &str) -> (r: String)
    ensures
        r@ == spec_missing_program_text(program@),
{
    let mut out = String::from_str("Cannot find the ");
    out.append(program);
    out.append(" core program.\n\n");
    out.append("This indicates that the ");
    out.append(program);
    out.append(" program files are corrupted.\n\n");
    out.append("Please try reinstalling to resolve this issue.");
    proof {
        assert(out@ =~= spec_missing_program_text(program@));
    }
    out
}

/// The spawn-failure modal's text.
pub fn spawn_failed_text(detail: &str) -> (r: String)
    ensures
        r@ == spec_spawn_failed_text(detail@),
{
    let mut out = String::from_str("Unable to start core program: ");
    out.append(detail);
    out.append(". Please check program file permissions or integrity.");
    proof {
        assert(out@ =~= spec_spawn_failed_text(detail@));
    }
    out
}

} // verus!
