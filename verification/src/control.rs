//! Decisions of the main control loop: when to stop, when to re-roll the
//! pattern, when to print the status line.

use vstd::prelude::*;

verus! {

/// Interval between two status lines, in nanoseconds.
pub const STATUS_EVERY_NANOS: u128 = 1_000_000_000;

/// What the control loop does in one pass.
#[derive(PartialEq, Eq, Structural, Debug, Clone, Copy)]
pub enum ControlAction {
    /// Leave the loop and shut the drivers down.
    Stop,
    /// Keep running; re-roll the pattern and print the status line when due.
    Run { reroll: bool, report: bool },
}

/// Whether the run is over: interrupted, or its duration has elapsed.
pub open spec fn run_is_over(interrupted: bool, run_for: Option<u128>, since_start: u128) -> bool {
    interrupted || (run_for matches Some(d) && since_start >= d)
}

/// One pass of the control loop. All times are in nanoseconds: `run_for`
/// is the requested duration of the run, if any; `since_start`,
/// `since_reroll` and `since_report` are the times since the run began,
/// since the last re-roll and since the last status line.
pub fn control_step(
    interrupted: bool,
    run_for: Option<u128>,
    reroll_every: u128,
    since_start: u128,
    since_reroll: u128,
    since_report: u128,
) -> (r: ControlAction)
    ensures
        interrupted ==> r == ControlAction::Stop,
        run_for matches Some(d) && since_start >= d ==> r == ControlAction::Stop,
        !interrupted && (run_for is None || since_start < run_for->0) ==> r == (ControlAction::Run {
            reroll: since_reroll >= reroll_every,
            report: since_report >= STATUS_EVERY_NANOS,
        }),
        run_is_over(interrupted, run_for, since_start) ==> r == ControlAction::Stop,
        !run_is_over(interrupted, run_for, since_start) ==> r == (ControlAction::Run {
            reroll: since_reroll >= reroll_every,
            report: since_report >= STATUS_EVERY_NANOS,
        }),
{
    if interrupted {
        return ControlAction::Stop;
    }
    if let Some(d) = run_for {
        if since_start >= d {
            return ControlAction::Stop;
        }
    }
    ControlAction::Run {
        reroll: since_reroll >= reroll_every,
        report: since_report >= STATUS_EVERY_NANOS,
    }
}

/// Whole seconds until the next re-roll, as the status line shows it; 0
/// once the re-roll is due.
pub fn next_reroll_in(reroll_secs: u64, since_reroll_secs: u64) -> (r: u64)
    ensures
        since_reroll_secs <= reroll_secs ==> r == reroll_secs - since_reroll_secs,
        since_reroll_secs > reroll_secs ==> r == 0,
{
    reroll_secs.saturating_sub(since_reroll_secs)
}

/// What the shutdown does next with a driver thread it is waiting for.
#[derive(PartialEq, Eq, Structural, Debug, Clone, Copy)]
pub enum JoinAction {
    /// The thread has finished: join it and move on.
    Join,
    /// The shutdown deadline has passed: exit the process.
    Exit,
    /// Sleep briefly and look again.
    Wait,
}

/// The shutdown rule for one look at a driver thread: join it once it has
/// finished, give up once the deadline has passed, else wait.
pub fn join_action(finished: bool, past_deadline: bool) -> (r: JoinAction)
    ensures
        r == if finished {
            JoinAction::Join
        } else if past_deadline {
            JoinAction::Exit
        } else {
            JoinAction::Wait
        },
{
    if finished {
        JoinAction::Join
    } else if past_deadline {
        JoinAction::Exit
    } else {
        JoinAction::Wait
    }
}

/// A run that is not interrupted and has a duration `d` is over exactly
/// when `d` has elapsed; an interrupted run is always over.
pub proof fn lemma_timed_run_ends_at_its_duration(d: u128, t: u128, run_for: Option<u128>)
    ensures
        run_is_over(false, Some(d), t) <==> t >= d,
        run_is_over(true, run_for, t),
{
}

/// A run without a duration is only ended by an interrupt, however long it
/// has been going.
pub proof fn lemma_open_run_ends_only_on_interrupt(interrupted: bool, since_start: u128)
    ensures
        run_is_over(interrupted, None, since_start) == interrupted,
{
}

/// Once a run with a duration is over, it stays over as time goes on.
pub proof fn lemma_run_over_is_final(interrupted: bool, run_for: Option<u128>, t1: u128, t2: u128)
    requires
        t1 <= t2,
        run_is_over(interrupted, run_for, t1),
    ensures
        run_is_over(interrupted, run_for, t2),
{
}

} // verus!
