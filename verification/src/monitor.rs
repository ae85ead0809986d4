//! The monitor that checks the health of all contracts again and again.
//!
//! It waits for a tick, runs the checks, and waits for the next tick, however
//! the checks went. It never stops.

use vstd::prelude::*;

verus! {

/// The time from one tick to the next.
pub const SWEEP_INTERVAL_SECS: u64 = 3600;

/// How a run of the checks ended.
#[derive(Debug, Clone, Copy, PartialEq, Eq, Structural)]
pub enum ChecksOutcome {
    Completed,
    Failed,
}

/// What happened.
#[derive(Debug, Clone, Copy, PartialEq, Eq, Structural)]
pub enum MonitorEvent {
    Tick,
    ChecksEnded(ChecksOutcome),
}

/// What is to be done.
#[derive(Debug, Clone, Copy, PartialEq, Eq, Structural)]
pub enum MonitorAction {
    AwaitTick,
    RunChecks,
}

/// What is to be done after an event.
pub open spec fn action_after(event: MonitorEvent) -> MonitorAction {
    match event {
        MonitorEvent::Tick => MonitorAction::RunChecks,
        MonitorEvent::ChecksEnded(_) => MonitorAction::AwaitTick,
    }
}

/// The first thing to be done.
pub fn monitor_start() -> (action: MonitorAction)
    ensures
        action == MonitorAction::AwaitTick,
{
    MonitorAction::AwaitTick
}

/// Returns what is to be done after `event`.
pub fn monitor_step(event: MonitorEvent) -> (action: MonitorAction)
    ensures
        action == action_after(event),
{
    match event {
        MonitorEvent::Tick => MonitorAction::RunChecks,
        MonitorEvent::ChecksEnded(_) => MonitorAction::AwaitTick,
    }
}

/// The events of a monitor whose runs ended as `outcomes` says: each outcome
/// comes after a tick of its own.
pub open spec fn history(outcomes: Seq<ChecksOutcome>) -> Seq<MonitorEvent>
    decreases outcomes.len(),
{
    if outcomes.len() == 0 {
        seq![]
    } else {
        history(outcomes.drop_last()).push(MonitorEvent::Tick).push(
            MonitorEvent::ChecksEnded(outcomes.last()),
        )
    }
}

/// What a monitor does after each of the events.
pub open spec fn actions_after(events: Seq<MonitorEvent>) -> Seq<MonitorAction> {
    events.map_values(|event: MonitorEvent| action_after(event))
}

/// How many of the actions run the checks.
pub open spec fn runs(actions: Seq<MonitorAction>) -> nat
    decreases actions.len(),
{
    if actions.len() == 0 {
        0
    } else {
        runs(actions.drop_last()) + if actions.last() is RunChecks {
            1nat
        } else {
            0
        }
    }
}

/// A tick is answered by a run of the checks, and the end of a run by the wait
/// for the next tick, whatever came of it.
pub proof fn law_monitor_answers(event: MonitorEvent)
    ensures
        event is Tick <==> action_after(event) is RunChecks,
        event is ChecksEnded <==> action_after(event) is AwaitTick,
{
}

/// As many ticks as there are outcomes make the checks run just as many times,
/// whatever the outcomes: each run follows its tick, and each end of a run,
/// failed or not, is followed by the wait for the next tick.
pub proof fn law_one_run_per_tick(outcomes: Seq<ChecksOutcome>)
    ensures
        runs(actions_after(history(outcomes))) == outcomes.len(),
        actions_after(history(outcomes)).len() == 2 * outcomes.len(),
        forall|i: int|
            #![trigger outcomes[i]]
            0 <= i < outcomes.len() ==> {
                &&& actions_after(history(outcomes))[2 * i] == MonitorAction::RunChecks
                &&& history(outcomes)[2 * i + 1] == MonitorEvent::ChecksEnded(outcomes[i])
                &&& actions_after(history(outcomes))[2 * i + 1] == MonitorAction::AwaitTick
            },
    decreases outcomes.len(),
{
    let actions = actions_after(history(outcomes));
    if outcomes.len() > 0 {
        let earlier = outcomes.drop_last();
        let before = actions_after(history(earlier));
        law_one_run_per_tick(earlier);
        assert(actions =~= before.push(MonitorAction::RunChecks).push(MonitorAction::AwaitTick));
        assert(actions.drop_last() =~= before.push(MonitorAction::RunChecks));
        assert(actions.drop_last().drop_last() =~= before);
        assert(runs(actions.drop_last()) == runs(before) + 1);
        assert forall|i: int| #![trigger outcomes[i]] 0 <= i < outcomes.len() implies {
            &&& actions[2 * i] == MonitorAction::RunChecks
            &&& history(outcomes)[2 * i + 1] == MonitorEvent::ChecksEnded(outcomes[i])
            &&& actions[2 * i + 1] == MonitorAction::AwaitTick
        } by {
            if i < earlier.len() {
                assert(outcomes[i] == earlier[i]);
            }
        }
    }
}

} // verus!
