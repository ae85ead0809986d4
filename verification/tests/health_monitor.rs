use chrono::{DateTime, Utc};
use contract_registry::clock::{Timestamp, MAX_SECS, MIN_SECS};
use contract_registry::health::{
    calculate_health, calculate_health_at, derive_security_score, verification_level, Contract,
    ContractHealth, ContractStats, HealthStatus, VerificationLevel, HEALTHY_STATUS_MIN_SCORE,
    MAX_SECURITY_SCORE, MAX_TOTAL_HEALTH_SCORE, MIN_SECURITY_SCORE, WARNING_STATUS_MIN_SCORE,
};
use contract_registry::health_store::{stats_statement, upsert_statement, LIST_CONTRACTS_SQL};
use contract_registry::monitor::{
    monitor_start, monitor_step, ChecksOutcome, MonitorAction, MonitorEvent, SWEEP_INTERVAL_SECS,
};
use contract_registry::sql::BindValue;
use uuid::Uuid;

const DAY: i64 = 86_400;

fn timestamp(t: DateTime<Utc>) -> Timestamp {
    Timestamp::new(t.timestamp(), t.timestamp_subsec_nanos()).unwrap()
}

fn at(secs: i64, nanos: u32) -> Timestamp {
    Timestamp::new(secs, nanos).unwrap()
}

fn build_dummy_contract() -> Contract {
    Contract {
        id: Uuid::new_v4(),
        is_verified: true,
        created_at: timestamp(Utc::now()),
    }
}

/// The report on a contract created at `created_at`, made at `now`.
fn report(level: VerificationLevel, created_at: Timestamp, now: Timestamp) -> ContractHealth {
    let contract = Contract {
        id: Uuid::from_u128(7),
        is_verified: false,
        created_at,
    };
    calculate_health_at(&contract, None, level, now, now)
}

fn report_after_days(level: VerificationLevel, days: i64) -> ContractHealth {
    report(level, at(1_700_000_000, 0), at(1_700_000_000 + days * DAY, 0))
}

#[test]
fn test_security_score_edge_zero() {
    assert_eq!(derive_security_score(0), 0);
}

#[test]
fn test_security_score_edge_max() {
    assert_eq!(derive_security_score(MAX_TOTAL_HEALTH_SCORE), MAX_SECURITY_SCORE);
}

#[test]
fn test_security_score_clamps_out_of_range_inputs() {
    assert_eq!(derive_security_score(i32::MIN), MIN_SECURITY_SCORE);
    assert_eq!(derive_security_score(i32::MAX), MAX_SECURITY_SCORE);
}

#[test]
fn test_security_score_alignment_with_status_thresholds() {
    assert_eq!(derive_security_score(HEALTHY_STATUS_MIN_SCORE), 40);
    assert_eq!(derive_security_score(WARNING_STATUS_MIN_SCORE), 25);
}

#[test]
fn test_health_score_unverified() {
    let contract = build_dummy_contract();
    // Unverified penalty: -40. Base 100 -> 60
    let health = calculate_health(&contract, None, VerificationLevel::Unverified);
    assert_eq!(health.total_score, 60);

    assert_eq!(health.security_score, 30);
    assert!(health.recommendations.contains(
        &"Verify the contract source code to improve trust and health score.".to_string()
    ));
}

#[test]
fn test_health_score_pending() {
    let contract = build_dummy_contract();
    // Pending penalty: -20. Base 100 -> 80
    let health = calculate_health(&contract, None, VerificationLevel::Pending);
    assert_eq!(health.total_score, 80);
    assert_eq!(health.security_score, 40);
    assert!(health.recommendations.contains(&"Contract verification is pending. Health score will improve once verification is complete.".to_string()));
}

#[test]
fn test_health_score_verified() {
    let contract = build_dummy_contract();
    // Verified: +0. Base 100 -> 100
    let health = calculate_health(&contract, None, VerificationLevel::Verified);
    assert_eq!(health.total_score, 100);
    assert!(health.recommendations.contains(
        &"Consider obtaining an external audit to achieve maximum trust and health score."
            .to_string()
    ));
}

#[test]
fn test_health_score_audited() {
    let contract = build_dummy_contract();
    // Audited: +20. Base 100 -> 100 (capped at 100)
    let health = calculate_health(&contract, None, VerificationLevel::Audited);
    assert_eq!(health.total_score, 100);
    assert_eq!(health.security_score, 50);
}

#[test]
fn test_health_score_audited_with_inactivity() {
    let contract = build_dummy_contract();
    let stats = ContractStats {
        // More than 30 days inactive: a penalty of 20
        last_interaction: Some(timestamp(Utc::now() - chrono::Duration::days(40))),
    };
    // Base 100 + 20 (Audited) - 20 (Inactive > 30 days) = 100
    let health = calculate_health(&contract, Some(&stats), VerificationLevel::Audited);
    assert_eq!(health.total_score, 100);
    assert_eq!(health.security_score, 50);
}

#[test]
fn weights_rise_with_trust() {
    assert_eq!(VerificationLevel::Unverified.score_weight(), -40);
    assert_eq!(VerificationLevel::Pending.score_weight(), -20);
    assert_eq!(VerificationLevel::Verified.score_weight(), 0);
    assert_eq!(VerificationLevel::Audited.score_weight(), 20);
}

#[test]
fn flag_gives_level() {
    assert_eq!(verification_level(true), VerificationLevel::Verified);
    assert_eq!(verification_level(false), VerificationLevel::Unverified);
}

#[test]
fn security_score_rounds_down() {
    assert_eq!(derive_security_score(99), 49);
    assert_eq!(derive_security_score(1), 0);
    assert_eq!(derive_security_score(-1), 0);
    assert_eq!(derive_security_score(101), 50);
}

#[test]
fn every_level_at_every_stage_of_inactivity() {
    let expected = [
        (VerificationLevel::Unverified, [60, 40, 20]),
        (VerificationLevel::Pending, [80, 60, 40]),
        (VerificationLevel::Verified, [100, 80, 60]),
        (VerificationLevel::Audited, [100, 100, 80]),
    ];
    for (level, scores) in expected {
        for (days, score) in [(0, scores[0]), (31, scores[1]), (91, scores[2])] {
            let health = report_after_days(level.clone(), days);
            assert_eq!(health.total_score, score);
            assert_eq!(health.security_score, score / 2);
            let status = if score >= 80 {
                HealthStatus::Healthy
            } else if score >= 50 {
                HealthStatus::Warning
            } else {
                HealthStatus::Critical
            };
            assert_eq!(health.status, status);
        }
    }
}

#[test]
fn inactivity_counts_whole_days() {
    let created = at(1_700_000_000, 500);
    let level = VerificationLevel::Verified;
    let just_before = at(1_700_000_000 + 31 * DAY, 499);
    let just_then = at(1_700_000_000 + 31 * DAY, 500);
    assert_eq!(report(level.clone(), created, just_before).total_score, 100);
    assert_eq!(report(level.clone(), created, just_then).total_score, 80);
    let just_before = at(1_700_000_000 + 91 * DAY, 499);
    let just_then = at(1_700_000_000 + 91 * DAY, 500);
    assert_eq!(report(level.clone(), created, just_before).total_score, 80);
    assert_eq!(report(level, created, just_then).total_score, 60);
}

#[test]
fn activity_ahead_of_the_clock_is_no_inactivity() {
    let health = report(VerificationLevel::Verified, at(1_900_000_000, 0), at(1_700_000_000, 0));
    assert_eq!(health.total_score, 100);
}

#[test]
fn leap_seconds_are_counted_from_within() {
    let level = VerificationLevel::Verified;
    // From 23:59:60.5, the leap second at the end of 2016.
    let leap = at(1_483_228_799, 1_500_000_000);
    let midnight = 1_483_228_800 + 31 * DAY;
    assert_eq!(report(level.clone(), leap, at(midnight, 499_999_999)).total_score, 100);
    assert_eq!(report(level.clone(), leap, at(midnight, 500_000_000)).total_score, 80);
    // From 12:00:60.5: at 12:01 half a second has passed beyond full days.
    let noon = 1_483_228_800 + DAY / 2;
    let leap = at(noon + 59, 1_500_000_000);
    assert_eq!(report(level.clone(), leap, at(noon + 60 + 31 * DAY, 0)).total_score, 80);
    assert_eq!(report(level.clone(), leap, at(noon + 59 + 31 * DAY, 0)).total_score, 100);
    // From 12:01 to 12:00:60.2: most of a second is missing to full days.
    let leap = at(noon + 59 + 31 * DAY, 1_200_000_000);
    assert_eq!(report(level.clone(), at(noon + 60, 0), leap).total_score, 100);
    assert_eq!(report(level, at(noon + 59, 0), leap).total_score, 80);
}

#[test]
fn stats_without_interaction_fall_back_to_creation() {
    let contract = Contract {
        id: Uuid::from_u128(1),
        is_verified: true,
        created_at: at(1_700_000_000, 0),
    };
    let now = at(1_700_000_000 + 100 * DAY, 0);
    let none = ContractStats { last_interaction: None };
    let health = calculate_health_at(&contract, Some(&none), VerificationLevel::Verified, now, now);
    assert_eq!(health.last_activity, contract.created_at);
    assert_eq!(health.total_score, 60);

    let some = ContractStats { last_interaction: Some(at(1_700_000_000 + 99 * DAY, 0)) };
    let health = calculate_health_at(&contract, Some(&some), VerificationLevel::Verified, now, now);
    assert_eq!(health.last_activity, at(1_700_000_000 + 99 * DAY, 0));
    assert_eq!(health.total_score, 100);
}

#[test]
fn report_carries_identity_and_dates() {
    let contract = Contract {
        id: Uuid::from_u128(42),
        is_verified: true,
        created_at: at(1_700_000_000, 1),
    };
    let health = calculate_health_at(
        &contract,
        None,
        VerificationLevel::Verified,
        at(1_700_000_100, 2),
        at(1_700_000_101, 3),
    );
    assert_eq!(health.contract_id, Uuid::from_u128(42));
    assert_eq!(health.last_activity, at(1_700_000_000, 1));
    assert_eq!(health.updated_at, at(1_700_000_101, 3));
    assert_eq!(health.audit_date, None);
}

#[test]
fn report_is_dated_by_the_clock() {
    let before = Utc::now().timestamp();
    let health = calculate_health(&build_dummy_contract(), None, VerificationLevel::Verified);
    let after = Utc::now().timestamp();
    assert!(before <= health.updated_at.secs() && health.updated_at.secs() <= after);
}

#[test]
fn recommendations_in_order() {
    let over_30 = "Contract has been inactive for over 30 days.";
    let over_90 = "Contract has been inactive for over 90 days. Consider engaging users or updating the contract.";
    let audit = "Consider obtaining an external audit to achieve maximum trust and health score.";
    let praise = "Contract is healthy and active. Keep it up!";
    assert_eq!(report_after_days(VerificationLevel::Audited, 30).recommendations, vec![praise]);
    assert_eq!(report_after_days(VerificationLevel::Audited, 31).recommendations, vec![over_30]);
    assert_eq!(report_after_days(VerificationLevel::Audited, 91).recommendations, vec![over_90]);
    assert_eq!(report_after_days(VerificationLevel::Verified, 30).recommendations, vec![audit]);
    assert_eq!(
        report_after_days(VerificationLevel::Verified, 90).recommendations,
        vec![audit, over_30]
    );
    assert_eq!(
        report_after_days(VerificationLevel::Verified, 91).recommendations,
        vec![audit, over_90]
    );
}

#[test]
fn timestamps_cover_the_range_of_chrono() {
    assert_eq!(MIN_SECS, DateTime::<Utc>::MIN_UTC.timestamp());
    assert_eq!(MAX_SECS, DateTime::<Utc>::MAX_UTC.timestamp());
    for secs in [MIN_SECS - 1, MIN_SECS, -61, -60, -1, 0, 58, 59, 60, MAX_SECS, MAX_SECS + 1] {
        for nanos in [0, 999_999_999, 1_000_000_000, 1_999_999_999, 2_000_000_000] {
            assert_eq!(
                Timestamp::new(secs, nanos).is_some(),
                DateTime::from_timestamp(secs, nanos).is_some()
            );
        }
    }
    let t = at(-60, 5);
    assert_eq!(t.secs(), -60);
    assert_eq!(t.nanos(), 5);
}

#[test]
fn the_whole_range_can_be_compared() {
    let first = at(MIN_SECS, 0);
    let last = at(MAX_SECS, 1_999_999_999);
    assert_eq!(report(VerificationLevel::Verified, first, last).total_score, 60);
    assert_eq!(report(VerificationLevel::Verified, last, first).total_score, 100);
}

#[test]
fn upsert_binds_every_column_in_order() {
    let health = report_after_days(VerificationLevel::Pending, 31);
    let statement = upsert_statement(&health);
    assert_eq!(
        statement.binds,
        vec![
            BindValue::Id(Uuid::from_u128(7)),
            BindValue::Status(HealthStatus::Warning),
            BindValue::Time(at(1_700_000_000, 0)),
            BindValue::Integer(30),
            BindValue::OptionalTime(None),
            BindValue::Integer(60),
            BindValue::TextArray(vec![
                "Contract verification is pending. Health score will improve once verification is complete.".to_string(),
                "Contract has been inactive for over 30 days.".to_string(),
            ]),
            BindValue::Time(at(1_700_000_000 + 31 * DAY, 0)),
        ]
    );
    let words: Vec<&str> = statement.sql.split_whitespace().collect();
    assert_eq!(
        words.join(" "),
        "INSERT INTO contract_health (contract_id, status, last_activity, security_score, audit_date, total_score, recommendations, updated_at) VALUES ($1, $2, $3, $4, $5, $6, $7, $8) ON CONFLICT (contract_id) DO UPDATE SET status = EXCLUDED.status, last_activity = EXCLUDED.last_activity, security_score = EXCLUDED.security_score, audit_date = EXCLUDED.audit_date, total_score = EXCLUDED.total_score, recommendations = EXCLUDED.recommendations, updated_at = EXCLUDED.updated_at"
    );
}

#[test]
fn reads_are_as_written() {
    assert_eq!(LIST_CONTRACTS_SQL, "SELECT * FROM contracts");
    let statement = stats_statement(Uuid::from_u128(11));
    assert_eq!(statement.sql, "SELECT * FROM contract_stats WHERE contract_id = $1");
    assert_eq!(statement.binds, vec![BindValue::Id(Uuid::from_u128(11))]);
}

#[test]
fn report_goes_by_the_level_and_not_by_the_flag() {
    let now = at(1_700_000_000, 0);
    for is_verified in [true, false] {
        let contract = Contract { id: Uuid::from_u128(3), is_verified, created_at: now };
        let health = calculate_health_at(&contract, None, VerificationLevel::Pending, now, now);
        assert_eq!(health.total_score, 80);
    }
}

#[test]
fn monitor_runs_once_per_tick_whatever_the_outcome() {
    assert_eq!(SWEEP_INTERVAL_SECS, 3600);
    assert_eq!(monitor_start(), MonitorAction::AwaitTick);
    for outcome in [ChecksOutcome::Completed, ChecksOutcome::Failed, ChecksOutcome::Failed] {
        assert_eq!(monitor_step(MonitorEvent::Tick), MonitorAction::RunChecks);
        assert_eq!(
            monitor_step(MonitorEvent::ChecksEnded(outcome)),
            MonitorAction::AwaitTick
        );
    }
}
