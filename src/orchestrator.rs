//! The steady-state loop of the device: reap what a crash left, then upload,
//! wait for the host to write, wait for it to stop, and upload again.

use vstd::prelude::*;

verus! {

/// Seconds without writes after which the host is taken to be done.
pub const IDLE_SECONDS: usize = 6;

/// Seconds within which a write counts as activity.
pub const ACTIVE_SECONDS: usize = 1;

/// Exit status of a process whose setup failed before the loop started.
pub const EXIT_SETUP_FAILED: i32 = 1;

/// Exit status of a process whose loop stopped, which it is never meant to.
pub const EXIT_LOOP_STOPPED: i32 = 2;

/// Where the loop stands.
#[derive(Debug, Clone, Copy, PartialEq, Eq, Structural)]
pub enum Phase {
    /// Reaping the mount, mapping and snapshot of an earlier run.
    Startup,
    /// Running one upload cycle.
    Upload,
    /// Waiting for the host to write.
    WaitActive,
    /// Waiting for the host to stop writing.
    WaitIdle,
    /// Stopped before the loop started.
    SetupFailed,
    /// Stopped after the loop started.
    LoopStopped,
}

pub open spec fn next_phase_spec(p: Phase, ok: bool) -> Phase {
    match p {
        Phase::Startup => if ok {
            Phase::Upload
        } else {
            Phase::SetupFailed
        },
        Phase::Upload => if ok {
            Phase::WaitActive
        } else {
            Phase::LoopStopped
        },
        Phase::WaitActive => if ok {
            Phase::WaitIdle
        } else {
            Phase::LoopStopped
        },
        Phase::WaitIdle => if ok {
            Phase::Upload
        } else {
            Phase::LoopStopped
        },
        Phase::SetupFailed => Phase::SetupFailed,
        Phase::LoopStopped => Phase::LoopStopped,
    }
}

/// The phase after the work of phase `p` succeeded (`ok`) or failed.
pub fn next_phase(p: Phase, ok: bool) -> (r: Phase)
    ensures
        r == next_phase_spec(p, ok),
{
    match p {
        Phase::Startup => if ok {
            Phase::Upload
        } else {
            Phase::SetupFailed
        },
        Phase::Upload => if ok {
            Phase::WaitActive
        } else {
            Phase::LoopStopped
        },
        Phase::WaitActive => if ok {
            Phase::WaitIdle
        } else {
            Phase::LoopStopped
        },
        Phase::WaitIdle => if ok {
            Phase::Upload
        } else {
            Phase::LoopStopped
        },
        Phase::SetupFailed => Phase::SetupFailed,
        Phase::LoopStopped => Phase::LoopStopped,
    }
}

/// The exit status of a process that stopped in phase `p`, if it stopped.
pub fn exit_code(p: Phase) -> (r: Option<i32>)
    ensures
        p == Phase::SetupFailed ==> r == Some(EXIT_SETUP_FAILED),
        p == Phase::LoopStopped ==> r == Some(EXIT_LOOP_STOPPED),
        p != Phase::SetupFailed && p != Phase::LoopStopped ==> r is None,
{
    match p {
        Phase::SetupFailed => Some(EXIT_SETUP_FAILED),
        Phase::LoopStopped => Some(EXIT_LOOP_STOPPED),
        _ => None,
    }
}

} // verus!
