//! Exit classification: decides whether a child process's termination
//! counts as a normal shutdown or as a crash that needs a report.

use vstd::prelude::*;

verus! {

/// The platform family whose exit-status conventions apply.
#[derive(Clone, Copy, Debug, PartialEq, Eq, Structural)]
pub enum Platform {
    /// Unix-like platforms, where user-interrupt (SIGINT), kill (SIGKILL)
    /// and termination (SIGTERM) commonly surface as exit codes 130, 137
    /// and 143.
    Posix,
    /// The Windows family, where forcible termination by a task manager
    /// surfaces as a negative code or one strictly between 1 and 128.
    Windows,
}

/// The decision: was the termination a normal shutdown or a crash?
#[derive(Clone, Copy, Debug, PartialEq, Eq, Structural)]
pub enum Verdict {
    Normal,
    Crashed,
}

/// The classification policy. `code` is the child's numeric exit code,
/// `None` when the child was killed without one.
///
/// - Code 0 is always a normal exit.
/// - On Posix, a non-zero code is normal exactly when it is one of the
///   three signal-translated codes 130, 137 and 143.
/// - On Windows, a non-zero code is normal exactly when it is negative or
///   strictly between 1 and 128; code 1 and codes of 128 and above are
///   crashes.
/// - A termination with no numeric code at all is a crash on both
///   families.
pub open spec fn spec_classify(code: Option<i32>, platform: Platform) -> Verdict {
    match code {
        Option::None => Verdict::Crashed,
        Option::Some(c) => if c == 0 {
            Verdict::Normal
        } else {
            match platform {
                Platform::Posix => if c == 130 || c == 137 || c == 143 {
                    Verdict::Normal
                } else {
                    Verdict::Crashed
                },
                Platform::Windows => if c < 0 || (1 < c && c < 128) {
                    Verdict::Normal
                } else {
                    Verdict::Crashed
                },
            }
        },
    }
}

/// Classify a child termination. Implements exactly the policy of
/// [`spec_classify`].
pub fn classify(code: Option<i32>, platform: Platform) -> (v: Verdict)
    ensures
        v == spec_classify(code, platform),
{
    match code {
        Option::None => Verdict::Crashed,
        Option::Some(c) => {
            if c == 0 {
                Verdict::Normal
            } else {
                match platform {
                    Platform::Posix => {
                        if c == 130 || c == 137 || c == 143 {
                            Verdict::Normal
                        } else {
                            Verdict::Crashed
                        }
                    },
                    Platform::Windows => {
                        if c < 0 || (1 < c && c < 128) {
                            Verdict::Normal
                        } else {
                            Verdict::Crashed
                        }
                    },
                }
            }
        },
    }
}

/// Law: an exit code of 0 is a normal exit on every platform family.
pub proof fn lemma_zero_is_normal(platform: Platform)
    ensures
        spec_classify(Some(0), platform) == Verdict::Normal,
{
}

/// Law: on Posix, the codes 130, 137 and 143 are normal exits, and every
/// other non-zero code is a crash.
pub proof fn lemma_posix_policy(c: i32)
    ensures
        (c == 130 || c == 137 || c == 143) ==> spec_classify(Some(c), Platform::Posix)
            == Verdict::Normal,
        (c != 0 && c != 130 && c != 137 && c != 143) ==> spec_classify(Some(c), Platform::Posix)
            == Verdict::Crashed,
{
}

/// Law: on Windows, a negative code or one strictly between 1 and 128 is
/// a normal exit; code 1 and codes of 128 and above are crashes.
pub proof fn lemma_windows_policy(c: i32)
    ensures
        (c < 0 || (1 < c && c < 128)) ==> spec_classify(Some(c), Platform::Windows)
            == Verdict::Normal,
        (c == 1 || c >= 128) ==> spec_classify(Some(c), Platform::Windows) == Verdict::Crashed,
{
}

/// Law: a termination that carries no numeric exit code is a crash on
/// every platform family.
pub proof fn lemma_no_code_is_crash(platform: Platform)
    ensures
        spec_classify(None::<i32>, platform) == Verdict::Crashed,
{
}

} // verus!
