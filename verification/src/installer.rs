//! The shared "install the tool if it is missing" rules.
//!
//! Two external tools are managed the same way: a presence probe either
//! finds the tool, fails with "not found", or fails for another reason.
//! Only "not found" may lead to an install, and only on confirmation
//! (or when the prompt is skipped); any other probe failure is fatal.
use vstd::prelude::*;

verus! {

/// How probing for something outside ended: it was found, it was
/// definitely not there, or the probe itself failed.
#[derive(Clone, Copy, Debug, PartialEq, Eq, Structural)]
pub enum ProbeStatus {
    Present,
    NotFound,
    Failed,
}

/// How running an external command ended: it exited successfully, it
/// ran but exited with failure, or it could not be run at all.
#[derive(Clone, Copy, Debug, PartialEq, Eq, Structural)]
pub enum RunStatus {
    Succeeded,
    ExitedWithFailure,
    CouldNotRun,
}

/// How a file-system operation ended: it took effect, the path was not
/// there, or it failed for another reason.
#[derive(Clone, Copy, Debug, PartialEq, Eq, Structural)]
pub enum FsOutcome {
    Succeeded,
    NotFound,
    Failed,
}

/// What to do about a tool after probing for it.
#[derive(Clone, Copy, Debug, PartialEq, Eq, Structural)]
pub enum InstallDecision {
    Proceed,
    Install,
    Abort,
}

/// Decide whether a tool must be installed: a present tool needs
/// nothing, a missing one is installed exactly when confirmed, and a
/// failed probe aborts.
pub fn decide_install(probe: &ProbeStatus, confirmed: bool) -> (r: InstallDecision)
    ensures
        probe is Present ==> r == InstallDecision::Proceed,
        probe is NotFound && confirmed ==> r == InstallDecision::Install,
        probe is NotFound && !confirmed ==> r == InstallDecision::Abort,
        probe is Failed ==> r == InstallDecision::Abort,
{
    match probe {
        ProbeStatus::Present => InstallDecision::Proceed,
        ProbeStatus::NotFound => if confirmed {
            InstallDecision::Install
        } else {
            InstallDecision::Abort
        },
        ProbeStatus::Failed => InstallDecision::Abort,
    }
}

/// Read a confirmation out of one line of the user's answer, already
/// stripped of its trailing newline: `y`/`Y` confirms, `n`/`N`
/// declines, anything else asks again.
pub fn interpret_answer(answer: &str) -> (r: Option<bool>)
    ensures
        answer@ == "y"@ || answer@ == "Y"@ ==> r == Some(true),
        answer@ == "n"@ || answer@ == "N"@ ==> r == Some(false),
        answer@ != "y"@ && answer@ != "Y"@ && answer@ != "n"@ && answer@ != "N"@ ==> r is None,
{
    proof {
        reveal_strlit("y");
        reveal_strlit("Y");
        reveal_strlit("n");
        reveal_strlit("N");
        assert("y"@[0] == 'y' && "Y"@[0] == 'Y' && "n"@[0] == 'n' && "N"@[0] == 'N');
        assert("y"@ != "n"@ && "y"@ != "N"@ && "Y"@ != "n"@ && "Y"@ != "N"@);
    }
    if crate::text::str_eq(answer, "y") || crate::text::str_eq(answer, "Y") {
        Some(true)
    } else if crate::text::str_eq(answer, "n") || crate::text::str_eq(answer, "N") {
        Some(false)
    } else {
        None
    }
}

} // verus!
