//! A sweep over all contracts that refreshes the health report of each.
//!
//! The sweep decides what is to be done next and is told how it went. It lists
//! the contracts, and then, for one after the other, loads the statistics and
//! saves the report. The first failure ends it.

use crate::clock::{clock_reading, shown_by_clock, utc_now, Instant, Timestamp};
use crate::health::{
    calculate_health_at, health_of, level_of_flag, verification_level, Contract, ContractHealth,
    ContractStats, HealthView, VerificationLevel,
};
use uuid::Uuid;
use vstd::prelude::*;

verus! {

/// What a sweep waits for.
#[derive(Debug, Clone, Copy, PartialEq, Eq, Structural)]
pub enum SweepPhase {
    /// The list of contracts.
    Listing,
    /// The statistics of the next contract.
    Loading,
    /// That the report on the next contract is saved.
    Saving,
    /// Nothing: every contract has been dealt with.
    Finished,
    /// Nothing: something failed.
    Aborted,
}

/// What happened.
#[derive(Debug)]
pub enum SweepEvent {
    Contracts(Vec<Contract>),
    Stats(Option<ContractStats>),
    Saved,
    Failed,
}

/// What is to be done.
#[derive(Debug)]
pub enum SweepAction {
    ListContracts,
    /// Load the statistics of this contract.
    LoadStats(Uuid),
    /// Save this report.
    Save(ContractHealth),
    /// Report success.
    Finish,
    /// Report the failure.
    Abort,
}

/// What a `SweepAction` stands for.
pub enum ActionView {
    ListContracts,
    LoadStats(Uuid),
    Save(HealthView),
    Finish,
    Abort,
}

impl View for SweepAction {
    type V = ActionView;

    open spec fn view(&self) -> ActionView {
        match self {
            SweepAction::ListContracts => ActionView::ListContracts,
            SweepAction::LoadStats(id) => ActionView::LoadStats(*id),
            SweepAction::Save(health) => ActionView::Save(health@),
            SweepAction::Finish => ActionView::Finish,
            SweepAction::Abort => ActionView::Abort,
        }
    }
}

/// What a `HealthSweep` stands for: the contracts, how many of them have been
/// dealt with, and what it waits for.
#[verifier::ext_equal]
pub struct SweepView {
    pub contracts: Seq<Contract>,
    pub checked: int,
    pub phase: SweepPhase,
}

impl SweepView {
    /// There is a next contract wherever one is being dealt with.
    pub open spec fn valid(self) -> bool {
        &&& 0 <= self.checked <= self.contracts.len()
        &&& self.phase is Loading || self.phase is Saving ==> self.checked < self.contracts.len()
        &&& self.phase is Finished ==> self.checked == self.contracts.len()
    }

    /// A sweep that has not ended waits for the answer to its last action, or
    /// for a failure.
    pub open spec fn awaits(self, event: SweepEvent) -> bool {
        match event {
            SweepEvent::Contracts(_) => self.phase is Listing,
            SweepEvent::Stats(_) => self.phase is Loading,
            SweepEvent::Saved => self.phase is Saving,
            SweepEvent::Failed => self.phase is Listing || self.phase is Loading
                || self.phase is Saving,
        }
    }

    /// The state with the contract number `checked` up next.
    pub open spec fn at(contracts: Seq<Contract>, checked: int) -> SweepView {
        SweepView {
            contracts,
            checked,
            phase: if checked < contracts.len() {
                SweepPhase::Loading
            } else {
                SweepPhase::Finished
            },
        }
    }

    /// The state that follows.
    pub open spec fn after(self, event: SweepEvent) -> SweepView {
        match event {
            SweepEvent::Contracts(contracts) => SweepView::at(contracts@, 0),
            SweepEvent::Stats(_) => SweepView { phase: SweepPhase::Saving, ..self },
            SweepEvent::Saved => SweepView::at(self.contracts, self.checked + 1),
            SweepEvent::Failed => SweepView { phase: SweepPhase::Aborted, ..self },
        }
    }

    /// What is to be done in the state with this contract up next.
    pub open spec fn request(self) -> ActionView {
        if self.phase is Loading {
            ActionView::LoadStats(self.contracts[self.checked].id)
        } else {
            ActionView::Finish
        }
    }

    /// What is to be done after an event.
    pub open spec fn action(
        self,
        event: SweepEvent,
        now: Instant,
        updated_at: Instant,
    ) -> ActionView {
        match event {
            SweepEvent::Contracts(_) => self.after(event).request(),
            SweepEvent::Stats(stats) => ActionView::Save(self.report(stats, now, updated_at)),
            SweepEvent::Saved => self.after(event).request(),
            SweepEvent::Failed => ActionView::Abort,
        }
    }

    /// The report on the next contract.
    pub open spec fn report(
        self,
        stats: Option<ContractStats>,
        now: Instant,
        updated_at: Instant,
    ) -> HealthView {
        contract_report(self.contracts[self.checked], stats, now, updated_at)
    }
}

/// The report that a sweep makes on a contract.
pub open spec fn contract_report(
    contract: Contract,
    stats: Option<ContractStats>,
    now: Instant,
    updated_at: Instant,
) -> HealthView {
    let stats = match stats {
        Some(s) => Some(&s),
        None => None,
    };
    health_of(contract, stats, level_of_flag(contract.is_verified), now, updated_at)
}

/// A sweep under way.
#[derive(Debug)]
pub struct HealthSweep {
    contracts: Vec<Contract>,
    checked: usize,
    phase: SweepPhase,
}

impl View for HealthSweep {
    type V = SweepView;

    closed spec fn view(&self) -> SweepView {
        SweepView {
            contracts: self.contracts@,
            checked: self.checked as int,
            phase: self.phase,
        }
    }
}

impl HealthSweep {
    #[verifier::type_invariant]
    pub(crate) closed spec fn consistent(self) -> bool {
        self@.valid()
    }

    /// A new sweep, and its first action.
    pub fn start() -> (r: (HealthSweep, SweepAction))
        ensures
            r.0@ == (SweepView { contracts: seq![], checked: 0, phase: SweepPhase::Listing }),
            r.1@ == ActionView::ListContracts,
    {
        let contracts: Vec<Contract> = Vec::new();
        assert(contracts@ =~= seq![]);
        let sweep = HealthSweep { contracts, checked: 0, phase: SweepPhase::Listing };
        (sweep, SweepAction::ListContracts)
    }

    /// Returns whether the sweep waits for `event`.
    pub fn accepts(&self, event: &SweepEvent) -> (r: bool)
        ensures
            r == self@.awaits(*event),
    {
        match event {
            SweepEvent::Contracts(_) => matches!(self.phase, SweepPhase::Listing),
            SweepEvent::Stats(_) => matches!(self.phase, SweepPhase::Loading),
            SweepEvent::Saved => matches!(self.phase, SweepPhase::Saving),
            SweepEvent::Failed => !matches!(self.phase, SweepPhase::Finished)
                && !matches!(self.phase, SweepPhase::Aborted),
        }
    }

    /// The sweep with contract number `checked` up next, and what is to be
    /// done for it.
    fn advance(contracts: Vec<Contract>, checked: usize) -> (r: (HealthSweep, SweepAction))
        requires
            checked <= contracts@.len(),
        ensures
            r.0@ == SweepView::at(contracts@, checked as int),
            r.1@ == r.0@.request(),
    {
        if checked < contracts.len() {
            let action = SweepAction::LoadStats(contracts[checked].id);
            (HealthSweep { contracts, checked, phase: SweepPhase::Loading }, action)
        } else {
            (HealthSweep { contracts, checked, phase: SweepPhase::Finished }, SweepAction::Finish)
        }
    }

    /// Takes note of an event that calls for no report, and returns what is to
    /// be done next.
    fn step_without_report(self, event: SweepEvent) -> (r: (HealthSweep, SweepAction))
        requires
            self@.awaits(event),
            !(event is Stats),
        ensures
            r.0@ == self@.after(event),
            forall|now: Instant, updated_at: Instant|
                r.1@ == #[trigger] self@.action(event, now, updated_at),
    {
        proof {
            use_type_invariant(&self);
        }
        let HealthSweep { contracts, checked, .. } = self;
        match event {
            SweepEvent::Contracts(listed) => Self::advance(listed, 0),
            SweepEvent::Saved => {
                assert(checked < contracts.len());
                Self::advance(contracts, checked + 1)
            },
            _ => (
                HealthSweep { contracts, checked, phase: SweepPhase::Aborted },
                SweepAction::Abort,
            ),
        }
    }

    /// Takes note of `event` and returns what is to be done next. A report that
    /// is due is judged at `now` and dated `updated_at`.
    pub fn step_at(self, event: SweepEvent, now: Timestamp, updated_at: Timestamp) -> (r: (
        HealthSweep,
        SweepAction,
    ))
        requires
            self@.awaits(event),
        ensures
            r.0@ == self@.after(event),
            r.1@ == self@.action(event, now@, updated_at@),
    {
        match event {
            SweepEvent::Stats(stats) => {
                proof {
                    use_type_invariant(&self);
                }
                let HealthSweep { contracts, checked, .. } = self;
                let contract = &contracts[checked];
                let level = verification_level(contract.is_verified);
                let health = calculate_health_at(contract, stats.as_ref(), level, now, updated_at);
                let sweep = HealthSweep { contracts, checked, phase: SweepPhase::Saving };
                (sweep, SweepAction::Save(health))
            },
            other => self.step_without_report(other),
        }
    }

    /// Takes note of `event` and returns what is to be done next. A report that
    /// is due is judged and dated by the clock, which is read for nothing else.
    pub fn step(self, event: SweepEvent) -> (r: (HealthSweep, SweepAction))
        requires
            self@.awaits(event),
        ensures
            r.0@ == self@.after(event),
            event is Stats ==> exists|now: Instant, updated_at: Instant|
                clock_reading(now) && clock_reading(updated_at) && shown_by_clock(now)
                    && shown_by_clock(updated_at) && r.1@ == #[trigger] self@.action(
                    event,
                    now,
                    updated_at,
                ),
            !(event is Stats) ==> forall|now: Instant, updated_at: Instant|
                r.1@ == #[trigger] self@.action(event, now, updated_at),
    {
        match event {
            SweepEvent::Stats(stats) => {
                let now = utc_now();
                let updated_at = utc_now();
                self.step_at(SweepEvent::Stats(stats), now, updated_at)
            },
            other => self.step_without_report(other),
        }
    }
}

/// How one contract of a sweep goes where nothing fails: its statistics, and
/// the two readings of the clock.
pub struct Round {
    pub stats: Option<ContractStats>,
    pub now: Instant,
    pub updated_at: Instant,
}

/// The state of a sweep after the rounds, each of which loads the statistics
/// and saves the report of one contract.
pub open spec fn state_after(state: SweepView, rounds: Seq<Round>) -> SweepView
    decreases rounds.len(),
{
    if rounds.len() == 0 {
        state
    } else {
        state_after(state, rounds.drop_last()).after(SweepEvent::Stats(rounds.last().stats)).after(
            SweepEvent::Saved,
        )
    }
}

/// What a sweep asks for in the rounds: in each the saving of a report, and
/// what comes after it.
pub open spec fn actions_of(state: SweepView, rounds: Seq<Round>) -> Seq<ActionView>
    decreases rounds.len(),
{
    if rounds.len() == 0 {
        seq![]
    } else {
        let before = state_after(state, rounds.drop_last());
        let round = rounds.last();
        let loaded = SweepEvent::Stats(round.stats);
        actions_of(state, rounds.drop_last()).push(
            before.action(loaded, round.now, round.updated_at),
        ).push(before.after(loaded).action(SweepEvent::Saved, round.now, round.updated_at))
    }
}

/// Every event that a sweep waits for leaves it in a valid state.
pub proof fn law_steps_keep_validity(state: SweepView, event: SweepEvent)
    requires
        state.valid(),
        state.awaits(event),
    ensures
        state.after(event).valid(),
{
}

/// A sweep that is told of a failure asks for nothing but that the failure be
/// reported, keeps its count of the contracts dealt with, and waits for no
/// further event.
pub proof fn law_failure_ends_sweep(
    state: SweepView,
    event: SweepEvent,
    now: Instant,
    updated_at: Instant,
)
    requires
        state.awaits(SweepEvent::Failed),
    ensures
        state.action(SweepEvent::Failed, now, updated_at) == ActionView::Abort,
        state.after(SweepEvent::Failed).checked == state.checked,
        !state.after(SweepEvent::Failed).awaits(event),
{
}

/// A sweep waits for no further event if and only if it has ended: it has
/// finished, or something failed.
pub proof fn law_only_ended_sweeps_wait_for_nothing(state: SweepView)
    ensures
        (forall|event: SweepEvent| !#[trigger] state.awaits(event)) <==> state.phase is Finished
            || state.phase is Aborted,
{
    if !(state.phase is Finished || state.phase is Aborted) {
        assert(state.awaits(SweepEvent::Failed));
    }
}

/// How many events a sweep that has its list still waits for at most.
pub open spec fn events_left(state: SweepView) -> int {
    let left = 2 * (state.contracts.len() - state.checked);
    match state.phase {
        SweepPhase::Loading => left,
        SweepPhase::Saving => left - 1,
        _ => 0,
    }
}

/// A sweep that has its list ends: each event brings it closer.
pub proof fn law_sweep_ends(state: SweepView, event: SweepEvent)
    requires
        state.valid(),
        state.awaits(event),
        !(event is Contracts),
        !(state.phase is Listing),
    ensures
        0 <= events_left(state.after(event)) < events_left(state),
{
}

proof fn lemma_rounds(contracts: Seq<Contract>, rounds: Seq<Round>)
    requires
        rounds.len() <= contracts.len(),
    ensures
        state_after(SweepView::at(contracts, 0), rounds) == SweepView::at(
            contracts,
            rounds.len() as int,
        ),
        actions_of(SweepView::at(contracts, 0), rounds).len() == 2 * rounds.len(),
        forall|i: int|
            #![trigger rounds[i]]
            0 <= i < rounds.len() ==> {
                let actions = actions_of(SweepView::at(contracts, 0), rounds);
                &&& actions[2 * i] == ActionView::Save(
                    contract_report(
                        contracts[i],
                        rounds[i].stats,
                        rounds[i].now,
                        rounds[i].updated_at,
                    ),
                )
                &&& actions[2 * i + 1] == SweepView::at(contracts, i + 1).request()
            },
    decreases rounds.len(),
{
    if rounds.len() > 0 {
        let earlier = rounds.drop_last();
        lemma_rounds(contracts, earlier);
        let actions = actions_of(SweepView::at(contracts, 0), rounds);
        let earlier_actions = actions_of(SweepView::at(contracts, 0), earlier);
        assert forall|i: int| #![trigger rounds[i]] 0 <= i < rounds.len() implies {
            &&& actions[2 * i] == ActionView::Save(
                contract_report(
                    contracts[i],
                    rounds[i].stats,
                    rounds[i].now,
                    rounds[i].updated_at,
                ),
            )
            &&& actions[2 * i + 1] == SweepView::at(contracts, i + 1).request()
        } by {
            if i < earlier.len() {
                assert(rounds[i] == earlier[i]);
                assert(actions[2 * i] == earlier_actions[2 * i]);
                assert(actions[2 * i + 1] == earlier_actions[2 * i + 1]);
            }
        }
    }
}

/// As long as nothing fails, a sweep saves one report on each contract, in the
/// order of the list, and each before it turns to the next contract. After the
/// last it finishes, and not before. In every round it waits for just the two
/// events of the round.
pub proof fn law_each_contract_once(contracts: Seq<Contract>, rounds: Seq<Round>)
    requires
        rounds.len() <= contracts.len(),
    ensures
        state_after(SweepView::at(contracts, 0), rounds).checked == rounds.len(),
        state_after(SweepView::at(contracts, 0), rounds).phase is Finished <==> rounds.len()
            == contracts.len(),
        ({
            let actions = actions_of(SweepView::at(contracts, 0), rounds);
            &&& actions.len() == 2 * rounds.len()
            &&& forall|i: int|
                #![trigger contracts[i]]
                0 <= i < rounds.len() ==> {
                    &&& actions[2 * i] == ActionView::Save(
                        contract_report(
                            contracts[i],
                            rounds[i].stats,
                            rounds[i].now,
                            rounds[i].updated_at,
                        ),
                    )
                    &&& i + 1 < contracts.len() ==> actions[2 * i + 1] == ActionView::LoadStats(
                        contracts[i + 1].id,
                    )
                    &&& i + 1 == contracts.len() ==> actions[2 * i + 1] == ActionView::Finish
                }
        }),
        forall|i: int|
            #![trigger rounds[i]]
            0 <= i < rounds.len() ==> {
                let before = state_after(SweepView::at(contracts, 0), rounds.take(i));
                let loaded = SweepEvent::Stats(rounds[i].stats);
                before.awaits(loaded) && before.after(loaded).awaits(SweepEvent::Saved)
            },
{
    lemma_rounds(contracts, rounds);
    assert forall|i: int| #![trigger rounds[i]] 0 <= i < rounds.len() implies {
        let before = state_after(SweepView::at(contracts, 0), rounds.take(i));
        let loaded = SweepEvent::Stats(rounds[i].stats);
        before.awaits(loaded) && before.after(loaded).awaits(SweepEvent::Saved)
    } by {
        lemma_rounds(contracts, rounds.take(i));
    }
    assert forall|i: int| #![trigger contracts[i]] 0 <= i < rounds.len() implies {
        let actions = actions_of(SweepView::at(contracts, 0), rounds);
        &&& actions[2 * i] == ActionView::Save(
            contract_report(contracts[i], rounds[i].stats, rounds[i].now, rounds[i].updated_at),
        )
        &&& actions[2 * i + 1] == SweepView::at(contracts, i + 1).request()
    } by {
        let round = rounds[i];
    }
}

/// A sweep waits for the list first, and then for statistics and a saved report
/// in turn; for a failure it waits until it has ended.
pub proof fn law_awaited_events(state: SweepView, event: SweepEvent)
    ensures
        event is Contracts ==> (state.awaits(event) <==> state.phase is Listing),
        event is Stats ==> (state.awaits(event) <==> state.phase is Loading),
        event is Saved ==> (state.awaits(event) <==> state.phase is Saving),
        event is Failed ==> (state.awaits(event) <==> !(state.phase is Finished)
            && !(state.phase is Aborted)),
{
}

/// A sweep from its very start, as long as nothing fails: the list brings up
/// its first contract, or ends the sweep where it is empty. Then one report is
/// saved on each contract of the list, in order, at the level that the flag of
/// the contract stands for and with its own statistics; each is followed by the
/// next contract, and the last by the end.
pub proof fn law_sweep_from_start(
    list: Vec<Contract>,
    rounds: Seq<Round>,
    now: Instant,
    updated_at: Instant,
)
    requires
        rounds.len() <= list@.len(),
    ensures
        ({
            let start = SweepView { contracts: seq![], checked: 0, phase: SweepPhase::Listing };
            let listed = start.after(SweepEvent::Contracts(list));
            let first = start.action(SweepEvent::Contracts(list), now, updated_at);
            let actions = actions_of(listed, rounds);
            &&& start.awaits(SweepEvent::Contracts(list))
            &&& listed.contracts == list@
            &&& listed.checked == 0
            &&& list@.len() == 0 ==> first == ActionView::Finish && listed.phase is Finished
            &&& list@.len() > 0 ==> first == ActionView::LoadStats(list@[0].id)
                && listed.phase is Loading
            &&& actions.len() == 2 * rounds.len()
            &&& state_after(listed, rounds).checked == rounds.len()
            &&& state_after(listed, rounds).phase is Finished <==> rounds.len() == list@.len()
            &&& forall|i: int|
                #![trigger rounds[i]]
                0 <= i < rounds.len() ==> {
                    let level = if list@[i].is_verified {
                        VerificationLevel::Verified
                    } else {
                        VerificationLevel::Unverified
                    };
                    &&& rounds[i].stats matches Some(stats) ==> actions[2 * i] == ActionView::Save(
                        health_of(
                            list@[i],
                            Some(&stats),
                            level,
                            rounds[i].now,
                            rounds[i].updated_at,
                        ),
                    )
                    &&& rounds[i].stats is None ==> actions[2 * i] == ActionView::Save(
                        health_of(list@[i], None, level, rounds[i].now, rounds[i].updated_at),
                    )
                    &&& i + 1 < list@.len() ==> actions[2 * i + 1] == ActionView::LoadStats(
                        list@[i + 1].id,
                    )
                    &&& i + 1 == list@.len() ==> actions[2 * i + 1] == ActionView::Finish
                }
        }),
{
    lemma_rounds(list@, rounds);
}

/// An action stands for itself.
pub proof fn law_action_parts(action: SweepAction)
    ensures
        match action {
            SweepAction::ListContracts => action@ == ActionView::ListContracts,
            SweepAction::LoadStats(id) => action@ == ActionView::LoadStats(id),
            SweepAction::Save(health) => action@ == ActionView::Save(health@),
            SweepAction::Finish => action@ == ActionView::Finish,
            SweepAction::Abort => action@ == ActionView::Abort,
        },
{
}

} // verus!
