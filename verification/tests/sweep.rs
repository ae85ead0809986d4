use contract_registry::clock::Timestamp;
use contract_registry::health::{Contract, ContractStats, HealthStatus};
use contract_registry::sweep::{HealthSweep, SweepAction, SweepEvent};
use uuid::Uuid;

const DAY: i64 = 86_400;

fn at(secs: i64) -> Timestamp {
    Timestamp::new(secs, 0).unwrap()
}

fn contract(id: u128, is_verified: bool) -> Contract {
    Contract {
        id: Uuid::from_u128(id),
        is_verified,
        created_at: at(1_700_000_000),
    }
}

#[test]
fn empty_registry_finishes_at_once() {
    let (sweep, action) = HealthSweep::start();
    assert!(matches!(action, SweepAction::ListContracts));
    let (sweep, action) = sweep.step(SweepEvent::Contracts(vec![]));
    assert!(matches!(action, SweepAction::Finish));
    assert!(!sweep.accepts(&SweepEvent::Saved));
    assert!(!sweep.accepts(&SweepEvent::Failed));
}

#[test]
fn contracts_are_reported_on_in_order() {
    let now = at(1_700_000_000 + 40 * DAY);
    let later = at(1_700_000_001 + 40 * DAY);
    let (sweep, _) = HealthSweep::start();
    let listed = vec![contract(1, true), contract(2, false)];
    let (sweep, action) = sweep.step_at(SweepEvent::Contracts(listed), now, later);
    assert!(matches!(action, SweepAction::LoadStats(id) if id == Uuid::from_u128(1)));

    let (sweep, action) = sweep.step_at(SweepEvent::Stats(None), now, later);
    match action {
        SweepAction::Save(health) => {
            assert_eq!(health.contract_id, Uuid::from_u128(1));
            assert_eq!(health.total_score, 80);
            assert_eq!(health.updated_at, later);
        }
        other => panic!("no report: {:?}", other),
    }

    let (sweep, action) = sweep.step_at(SweepEvent::Saved, now, later);
    assert!(matches!(action, SweepAction::LoadStats(id) if id == Uuid::from_u128(2)));

    let stats = ContractStats { last_interaction: Some(now) };
    let (sweep, action) = sweep.step_at(SweepEvent::Stats(Some(stats)), now, later);
    match action {
        SweepAction::Save(health) => {
            assert_eq!(health.contract_id, Uuid::from_u128(2));
            assert_eq!(health.total_score, 60);
            assert_eq!(health.status, HealthStatus::Warning);
            assert_eq!(health.last_activity, now);
        }
        other => panic!("no report: {:?}", other),
    }

    let (_, action) = sweep.step_at(SweepEvent::Saved, now, later);
    assert!(matches!(action, SweepAction::Finish));
}

#[test]
fn first_failure_ends_the_sweep() {
    let (sweep, _) = HealthSweep::start();
    let (sweep, _) = sweep.step(SweepEvent::Contracts(vec![contract(1, true), contract(2, true)]));
    let (sweep, _) = sweep.step(SweepEvent::Stats(None));
    assert!(sweep.accepts(&SweepEvent::Saved));
    assert!(!sweep.accepts(&SweepEvent::Stats(None)));
    let (sweep, action) = sweep.step(SweepEvent::Failed);
    assert!(matches!(action, SweepAction::Abort));
    assert!(!sweep.accepts(&SweepEvent::Contracts(vec![])));
    assert!(!sweep.accepts(&SweepEvent::Stats(None)));
    assert!(!sweep.accepts(&SweepEvent::Saved));
    assert!(!sweep.accepts(&SweepEvent::Failed));
}

#[test]
fn listing_can_fail() {
    let (sweep, _) = HealthSweep::start();
    assert!(sweep.accepts(&SweepEvent::Failed));
    assert!(!sweep.accepts(&SweepEvent::Saved));
    let (_, action) = sweep.step(SweepEvent::Failed);
    assert!(matches!(action, SweepAction::Abort));
}
