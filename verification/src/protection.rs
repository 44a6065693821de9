//! The guard that a host may call before the window is shown.
//!
//! The guard fails closed: the process goes on only if the policy over its
//! arguments allows the invocation and no debugger is attached. There is no
//! third outcome and nothing is reported; a process that may not go on is
//! ended by the caller at once.

use vstd::prelude::*;

verus! {

/// Status that the guard hands back when the process may go on.
pub const STATUS_ADMITTED: i32 = 0;

/// What the guard decides.
#[derive(Debug, Clone, Copy, PartialEq, Eq, Structural)]
pub enum Verdict {
    /// The process may go on.
    Proceed,
    /// The process must end now.
    Abort,
}

/// The verdict for the outcome of the two checks.
pub open spec fn verdict(args_allowed: bool, debugger_attached: bool) -> Verdict {
    if args_allowed && !debugger_attached {
        Verdict::Proceed
    } else {
        Verdict::Abort
    }
}

/// Decides whether the process may go on.
pub fn admit_process(args_allowed: bool, debugger_attached: bool) -> (out: Verdict)
    ensures
        out == verdict(args_allowed, debugger_attached),
{
    if !args_allowed {
        Verdict::Abort
    } else if debugger_attached {
        Verdict::Abort
    } else {
        Verdict::Proceed
    }
}

} // verus!
