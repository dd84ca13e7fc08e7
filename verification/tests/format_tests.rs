use crashwatch::chars::string_from_chars;
use crashwatch::digits::{i64_dec_chars, pad2_chars, pad4_chars, u64_dec_chars};
use crashwatch::gpu::HostOs;
use crashwatch::report::{
    compose_report, crash_dialog_text, log_file_name, log_rel_path, missing_program_text,
    reveal_command, spawn_failed_text,
};
use crashwatch::timestamp::{compact_text, human_text, Timestamp};

fn chars_to_string(v: Vec<char>) -> String {
    string_from_chars(&v)
}

#[test]
fn decimal_digits_render_exactly() {
    assert_eq!(chars_to_string(u64_dec_chars(0)), "0");
    assert_eq!(chars_to_string(u64_dec_chars(7)), "7");
    assert_eq!(chars_to_string(u64_dec_chars(137)), "137");
    assert_eq!(chars_to_string(u64_dec_chars(1000)), "1000");
    assert_eq!(chars_to_string(u64_dec_chars(u64::MAX)), "18446744073709551615");
}

#[test]
fn signed_digits_render_exactly() {
    assert_eq!(chars_to_string(i64_dec_chars(-1)), "-1");
    assert_eq!(chars_to_string(i64_dec_chars(42)), "42");
    assert_eq!(chars_to_string(i64_dec_chars(i64::MIN)), "-9223372036854775808");
}

#[test]
fn padding_renders_exactly() {
    assert_eq!(chars_to_string(pad2_chars(3)), "03");
    assert_eq!(chars_to_string(pad2_chars(12)), "12");
    assert_eq!(chars_to_string(pad2_chars(123)), "123");
    assert_eq!(chars_to_string(pad4_chars(7)), "0007");
    assert_eq!(chars_to_string(pad4_chars(87)), "0087");
    assert_eq!(chars_to_string(pad4_chars(987)), "0987");
    assert_eq!(chars_to_string(pad4_chars(2025)), "2025");
    assert_eq!(chars_to_string(pad4_chars(12345)), "12345");
}

fn sample_moment() -> Timestamp {
    Timestamp { year: 2025, month: 3, day: 7, hour: 9, minute: 5, second: 42 }
}

#[test]
fn compact_timestamp_is_sortable_form() {
    assert_eq!(compact_text(&sample_moment()), "20250307090542");
}

#[test]
fn human_timestamp_is_readable_form() {
    assert_eq!(human_text(&sample_moment()), "2025-03-07 09:05:42");
}

#[test]
fn log_names_follow_timestamp() {
    let t = sample_moment();
    assert_eq!(log_file_name(&t), "crash_log_20250307090542.log");
    assert_eq!(log_rel_path(&t), "logs/crash_log_20250307090542.log");
}

#[test]
fn report_document_has_fixed_layout() {
    let doc = compose_report(
        "core",
        "2025-03-07 09:05:42",
        Some(1),
        "Operating System: X",
        "out line",
        "err line",
    );
    let expected = "Application 'core' encountered an unexpected and unrecoverable error \
                    at 2025-03-07 09:05:42 and has crashed.\n\
                    Exit code: 1 \n\
                    Please submit this log to the software maintainers to help us resolve the issue.\n\
                    --------------------\n\
                    Operating System: X\n\
                    --------------------\n\
                    Below is all the output information from this application from startup to crash:\n\n\
                    out line\nerr line\n";
    assert_eq!(doc, expected);
}

#[test]
fn report_document_uses_sentinel_without_code() {
    let doc = compose_report("core", "t", None, "inv", "", "");
    assert!(doc.contains("Exit code: -1 \n"));
}

#[test]
fn crash_dialog_names_the_log() {
    let text = crash_dialog_text("core", "/tmp/logs/crash_log_1.log");
    assert!(text.starts_with("core Main Program\n"));
    assert!(text.contains("Crash log generated: /tmp/logs/crash_log_1.log\n\n"));
    assert!(text.ends_with("submit it to the software maintainers."));
}

#[test]
fn missing_program_dialog_names_the_program() {
    let text = missing_program_text("core");
    assert_eq!(
        text,
        "Cannot find the core core program.\n\n\
         This indicates that the core program files are corrupted.\n\n\
         Please try reinstalling to resolve this issue."
    );
}

#[test]
fn reveal_command_matches_platform() {
    assert_eq!(reveal_command(HostOs::Windows), "explorer");
    assert_eq!(reveal_command(HostOs::MacOs), "open");
    assert_eq!(reveal_command(HostOs::Linux), "xdg-open");
}

#[test]
fn spawn_failure_dialog_carries_the_cause() {
    let text = spawn_failed_text("permission denied");
    assert_eq!(
        text,
        "Unable to start core program: permission denied. \
         Please check program file permissions or integrity."
    );
}
