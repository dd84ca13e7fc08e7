use crashwatch::classify::{Platform, Verdict};
use crashwatch::report::compose_crash_report;
use crashwatch::supervisor::{plan_run, ChildResult, SpawnResult};
use crashwatch::timestamp::Timestamp;

fn moment() -> Timestamp {
    Timestamp { year: 2025, month: 1, day: 2, hour: 3, minute: 4, second: 5 }
}

#[test]
fn clean_exit_is_silent_and_mirrors_zero() {
    let plan = plan_run(&SpawnResult::Finished(Some(0)), Platform::Posix);
    assert!(!plan.write_report);
    assert!(!plan.notify_missing);
    assert!(!plan.notify_spawn_failure);
    assert_eq!(plan.verdict, Some(Verdict::Normal));
    assert_eq!(plan.exit_code, 0);
}

#[test]
fn posix_code_one_owes_a_report_and_mirrors_one() {
    let plan = plan_run(&SpawnResult::Finished(Some(1)), Platform::Posix);
    assert!(plan.write_report);
    assert_eq!(plan.verdict, Some(Verdict::Crashed));
    assert_eq!(plan.exit_code, 1);

    let child = ChildResult { exit_code: Some(1), stdout: Vec::new(), stderr: Vec::new() };
    let doc = compose_crash_report(
        "core",
        &moment(),
        child.exit_code,
        "inventory block",
        &child.stdout,
        &child.stderr,
    );
    assert!(doc.contains("Exit code: 1 \n"));
    assert!(doc.contains("at 2025-01-02 03:04:05 and has crashed."));
    assert!(doc.contains("--------------------\ninventory block\n--------------------\n"));
}

#[test]
fn posix_signal_kill_code_is_normal_and_mirrored() {
    let child = ChildResult { exit_code: Some(137), stdout: Vec::new(), stderr: Vec::new() };
    assert_eq!(child.verdict(Platform::Posix), Verdict::Normal);
    let plan = plan_run(&SpawnResult::Finished(child.exit_code), Platform::Posix);
    assert!(!plan.write_report);
    assert_eq!(plan.exit_code, 137);
}

#[test]
fn missing_program_aborts_with_one_and_no_report() {
    let plan = plan_run(&SpawnResult::NotFound, Platform::Posix);
    assert!(plan.notify_missing);
    assert!(!plan.notify_spawn_failure);
    assert!(!plan.write_report);
    assert_eq!(plan.verdict, None);
    assert_eq!(plan.exit_code, 1);
}

#[test]
fn spawn_failure_aborts_with_one_and_its_own_notice() {
    let plan = plan_run(&SpawnResult::Failed, Platform::Windows);
    assert!(!plan.notify_missing);
    assert!(plan.notify_spawn_failure);
    assert!(!plan.write_report);
    assert_eq!(plan.exit_code, 1);
}

#[test]
fn signal_killed_child_maps_to_sentinel_exit() {
    let plan = plan_run(&SpawnResult::Finished(None), Platform::Posix);
    assert!(plan.write_report);
    assert_eq!(plan.exit_code, -1);
}

#[test]
fn malformed_legacy_stderr_still_yields_a_report_with_marker() {
    // The stderr bytes are not a valid legacy sequence (0xFF can never
    // lead), so the report must carry the substitution marker in their
    // place — and still be produced in full.
    let child = ChildResult {
        exit_code: Some(3),
        stdout: Vec::new(),
        stderr: vec![0x82, 0xA0, 0xFF],
    };
    let plan = plan_run(&SpawnResult::Finished(child.exit_code), Platform::Posix);
    assert!(plan.write_report);
    let doc = compose_crash_report(
        "core",
        &moment(),
        child.exit_code,
        "inv",
        &child.stdout,
        &child.stderr,
    );
    assert!(doc.contains('\u{fffd}'));
    assert!(doc.ends_with("\n"));
}
