//! The supervisor's decision logic: from the outcome of launching and
//! waiting for the child, decide which notification to show, whether a
//! crash report is owed, and which exit code to propagate. The launch
//! itself, the waiting and every side effect stay with the caller; this
//! module only decides.

use vstd::prelude::*;
use crate::classify::{Platform, Verdict, spec_classify, classify};

verus! {

/// Everything one finished child run produced: the exit code (`None`
/// when the child was killed without one) and the captured output
/// streams, still in their captured encoding.
pub struct ChildResult {
    pub exit_code: Option<i32>,
    pub stdout: Vec<u8>,
    pub stderr: Vec<u8>,
}

impl ChildResult {
    /// This run's termination verdict under `platform`'s conventions.
    pub fn verdict(&self, platform: Platform) -> (v: Verdict)
        ensures
            v == spec_classify(self.exit_code, platform),
    {
        classify(self.exit_code, platform)
    }
}

/// What came of launching the child and waiting for it.
pub enum SpawnResult {
    /// The child binary was not found — either before any launch was
    /// attempted, or at launch time.
    NotFound,
    /// The launch failed for another reason (permissions, I/O).
    Failed,
    /// The child ran to termination with the given exit code, `None`
    /// when it was killed without one.
    Finished(Option<i32>),
}

/// What the supervisor must do next. At most one notification flag is
/// set; a report is owed exactly when the child ran and its termination
/// classified as a crash.
pub struct RunPlan {
    /// Show the missing-program modal.
    pub notify_missing: bool,
    /// Show the spawn-failure modal.
    pub notify_spawn_failure: bool,
    /// Write the crash report (and show the crash modal).
    pub write_report: bool,
    /// The termination verdict, when the child ran.
    pub verdict: Option<Verdict>,
    /// The exit code to propagate: the child's own, the sentinel -1 when
    /// the child left none, and 1 when it never ran.
    pub exit_code: i32,
}

/// The exit code the supervisor propagates for a finished child: the
/// child's own, or the sentinel -1 when it was killed without one.
pub open spec fn spec_exit_status(code: Option<i32>) -> int {
    match code {
        Some(c) => c as int,
        None => -1,
    }
}

/// The supervisor's decision policy.
pub open spec fn spec_plan(r: SpawnResult, platform: Platform) -> RunPlan {
    match r {
        SpawnResult::NotFound => RunPlan {
            notify_missing: true,
            notify_spawn_failure: false,
            write_report: false,
            verdict: None,
            exit_code: 1,
        },
        SpawnResult::Failed => RunPlan {
            notify_missing: false,
            notify_spawn_failure: true,
            write_report: false,
            verdict: None,
            exit_code: 1,
        },
        SpawnResult::Finished(code) => RunPlan {
            notify_missing: false,
            notify_spawn_failure: false,
            write_report: spec_classify(code, platform) == Verdict::Crashed,
            verdict: Some(spec_classify(code, platform)),
            exit_code: spec_exit_status(code) as i32,
        },
    }
}

/// Decide what to do from the launch outcome, exactly per [`spec_plan`].
pub fn plan_run(r: &SpawnResult, platform: Platform) -> (p: RunPlan)
    ensures
        p == spec_plan(*r, platform),
{
    match r {
        SpawnResult::NotFound => RunPlan {
            notify_missing: true,
            notify_spawn_failure: false,
            write_report: false,
            verdict: None,
            exit_code: 1,
        },
        SpawnResult::Failed => RunPlan {
            notify_missing: false,
            notify_spawn_failure: true,
            write_report: false,
            verdict: None,
            exit_code: 1,
        },
        SpawnResult::Finished(code) => {
            let v = classify(*code, platform);
            let exit_code: i32 = match code {
                Some(c) => *c,
                None => -1,
            };
            RunPlan {
                notify_missing: false,
                notify_spawn_failure: false,
                write_report: v == Verdict::Crashed,
                verdict: Some(v),
                exit_code,
            }
        },
    }
}

/// Law: a crash report is owed if and only if the child ran and its
/// termination classified as a crash. A child that never ran yields no
/// report, and a child whose termination classified as normal yields
/// none either.
pub proof fn lemma_report_iff_crashed(r: SpawnResult, platform: Platform)
    ensures
        spec_plan(r, platform).write_report <==> (r matches SpawnResult::Finished(code)
            && spec_classify(code, platform) == Verdict::Crashed),
{
}

/// Law: when the child ran, the supervisor's exit code mirrors the
/// child's own, with the sentinel -1 when the child left none.
pub proof fn lemma_exit_mirrors_child(code: Option<i32>, platform: Platform)
    ensures
        spec_plan(SpawnResult::Finished(code), platform).exit_code == spec_exit_status(code),
{
}

/// Law: a normal termination is silent — no report and no notification
/// of any kind.
pub proof fn lemma_normal_is_silent(code: Option<i32>, platform: Platform)
    requires
        spec_classify(code, platform) == Verdict::Normal,
    ensures
        !spec_plan(SpawnResult::Finished(code), platform).write_report,
        !spec_plan(SpawnResult::Finished(code), platform).notify_missing,
        !spec_plan(SpawnResult::Finished(code), platform).notify_spawn_failure,
{
}

/// Law: the plan never asks for two notifications at once, and a crash
/// report is only ever owed when no launch-failure notice is.
pub proof fn lemma_at_most_one_notice(r: SpawnResult, platform: Platform)
    ensures
        !(spec_plan(r, platform).notify_missing && spec_plan(r, platform).notify_spawn_failure),
        spec_plan(r, platform).write_report ==> !spec_plan(r, platform).notify_missing && !spec_plan(
            r,
            platform,
        ).notify_spawn_failure,
{
}

/// Law: a child that never ran exits with status 1 and owes no report.
pub proof fn lemma_no_run_no_report(r: SpawnResult, platform: Platform)
    requires
        r matches SpawnResult::NotFound || r matches SpawnResult::Failed,
    ensures
        spec_plan(r, platform).exit_code == 1,
        !spec_plan(r, platform).write_report,
        spec_plan(r, platform).verdict is None,
{
}

} // verus!
