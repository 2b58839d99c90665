//! Waiting for the Accessibility permission at start-up.

use vstd::prelude::*;

verus! {

/// How long to keep polling for a grant before exiting, in seconds. A process that
/// started untrusted rarely sees a grant made while it runs; exiting lets the
/// service manager start a fresh process that does.
pub const PERMISSION_WAIT_SECS: u64 = 30;

/// The pause between two polls, in seconds.
pub const PERMISSION_POLL_INTERVAL_SECS: u64 = 2;

/// Which check of the permission was just made.
#[derive(Debug, Clone, Copy, PartialEq, Eq)]
pub enum PermissionCheck {
    /// The first check, which also shows the system prompt.
    Prompting,
    /// A later check, without prompting.
    Polling,
}

/// What to do after a check of the permission.
#[derive(Debug, Clone, Copy, PartialEq, Eq)]
pub enum PermissionWait {
    /// The permission is granted: carry on.
    Proceed,
    /// Start the wait: poll at once, and give up after [`PERMISSION_WAIT_SECS`].
    PollNow,
    /// Poll again after [`PERMISSION_POLL_INTERVAL_SECS`].
    PollAfterInterval,
    /// The wait is over without a grant: exit (successfully) so a fresh process is started.
    GiveUp,
}

pub open spec fn wait_decision(check: PermissionCheck, granted: bool, deadline_passed: bool) -> PermissionWait {
    if granted {
        PermissionWait::Proceed
    } else {
        match check {
            PermissionCheck::Prompting => PermissionWait::PollNow,
            PermissionCheck::Polling => if deadline_passed {
                PermissionWait::GiveUp
            } else {
                PermissionWait::PollAfterInterval
            },
        }
    }
}

/// Decide, after a check of the Accessibility permission, whether to proceed, keep
/// waiting, or give up. Only a poll made once the deadline has passed gives up.
pub fn permission_wait_step(check: PermissionCheck, granted: bool, deadline_passed: bool) -> (w: PermissionWait)
    ensures
        w == wait_decision(check, granted, deadline_passed),
        (w == PermissionWait::Proceed) <==> granted,
        w == PermissionWait::GiveUp ==> check == PermissionCheck::Polling && deadline_passed,
{
    if granted {
        PermissionWait::Proceed
    } else {
        match check {
            PermissionCheck::Prompting => PermissionWait::PollNow,
            PermissionCheck::Polling => {
                if deadline_passed {
                    PermissionWait::GiveUp
                } else {
                    PermissionWait::PollAfterInterval
                }
            },
        }
    }
}

} // verus!
