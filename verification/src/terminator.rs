//! The escalating-signal shutdown plan.
//!
//! Killing a process follows a fixed protocol: interrupt the whole process
//! group, wait a grace interval, terminate it, wait again, then
//! unconditionally kill it, and finally reap the child so no zombie is left —
//! all three signals are sent regardless of whether the process exited after
//! an earlier step. Platforms without process groups get a single forced
//! termination of the immediate child instead. The plan is produced here as
//! data; the embedding program performs each step in order, ignoring
//! delivery failures (teardown is best-effort and never reports an error).

use vstd::prelude::*;

verus! {

/// POSIX signal number for an interrupt request, the polite first step.
pub const INTERRUPT_SIGNAL: i32 = 2;

/// POSIX signal number for a termination request, the second step.
pub const TERMINATE_SIGNAL: i32 = 15;

/// POSIX signal number for the unconditional kill, the last resort.
pub const KILL_SIGNAL: i32 = 9;

/// Grace interval between escalation steps, in milliseconds.
pub const GRACE_MS: u64 = 300;

/// One step of a shutdown plan.
#[derive(Clone, Copy, Debug, PartialEq, Eq, Structural)]
pub enum TerminationStep {
    /// Send this signal to the victim's whole process group.
    SignalGroup(i32),
    /// Wait this many milliseconds before escalating.
    Pause(u64),
    /// Forcibly terminate the immediate child only.
    ForceKill,
    /// Synchronously wait on the child handle to reap it.
    Reap,
}

/// The escalating shutdown plan for a process group: interrupt, grace,
/// terminate, grace, kill, then reap.
pub open spec fn group_escalation() -> Seq<TerminationStep> {
    seq![
        TerminationStep::SignalGroup(INTERRUPT_SIGNAL),
        TerminationStep::Pause(GRACE_MS),
        TerminationStep::SignalGroup(TERMINATE_SIGNAL),
        TerminationStep::Pause(GRACE_MS),
        TerminationStep::SignalGroup(KILL_SIGNAL),
        TerminationStep::Reap,
    ]
}

/// The shutdown plan without process-group support: one forced termination
/// of the immediate child, then the reap.
pub open spec fn immediate_teardown() -> Seq<TerminationStep> {
    seq![TerminationStep::ForceKill, TerminationStep::Reap]
}

/// The steps of a shutdown, in the order the caller must perform them:
/// the escalating process-group protocol where process groups exist
/// (`grouped`), the single forced termination elsewhere.
pub fn termination_steps(grouped: bool) -> (steps: Vec<TerminationStep>)
    ensures
        grouped ==> steps@ =~= group_escalation(),
        !grouped ==> steps@ =~= immediate_teardown(),
{
    let mut steps: Vec<TerminationStep> = Vec::new();
    if grouped {
        steps.push(TerminationStep::SignalGroup(INTERRUPT_SIGNAL));
        steps.push(TerminationStep::Pause(GRACE_MS));
        steps.push(TerminationStep::SignalGroup(TERMINATE_SIGNAL));
        steps.push(TerminationStep::Pause(GRACE_MS));
        steps.push(TerminationStep::SignalGroup(KILL_SIGNAL));
        steps.push(TerminationStep::Reap);
    } else {
        steps.push(TerminationStep::ForceKill);
        steps.push(TerminationStep::Reap);
    }
    steps
}

} // verus!
