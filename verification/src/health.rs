//! The health report of a contract: how its scores, its status and its
//! recommendations follow from its verification level and its last activity.

use crate::clock::{
    clock_reading, days_between, elapsed_nanos, shown_by_clock, utc_now, whole_days, Instant, Timestamp,
    DAY_NANOS,
};
use crate::sql::texts;
use uuid::Uuid;
use vstd::prelude::*;

verus! {

pub const MAX_TOTAL_HEALTH_SCORE: i32 = 100;

pub const MIN_TOTAL_HEALTH_SCORE: i32 = 0;

pub const HEALTHY_STATUS_MIN_SCORE: i32 = 80;

pub const WARNING_STATUS_MIN_SCORE: i32 = 50;

pub const INACTIVITY_WARNING_DAYS: i64 = 30;

pub const INACTIVITY_CRITICAL_DAYS: i64 = 90;

/// What each of the two inactivity thresholds costs once it is passed.
pub const INACTIVITY_PENALTY: i32 = 20;

/// The security score is the total score divided by this, so that it is
/// reported on a scale of 0 to 50.
pub const SECURITY_SCORE_DIVISOR: i32 = 2;

pub const MIN_SECURITY_SCORE: i32 = 0;

pub const MAX_SECURITY_SCORE: i32 = 50;

pub const VERIFY_SOURCE: &'static str =
    "Verify the contract source code to improve trust and health score.";

pub const VERIFICATION_PENDING: &'static str =
    "Contract verification is pending. Health score will improve once verification is complete.";

pub const OBTAIN_AUDIT: &'static str =
    "Consider obtaining an external audit to achieve maximum trust and health score.";

pub const INACTIVE_OVER_90_DAYS: &'static str =
    "Contract has been inactive for over 90 days. Consider engaging users or updating the contract.";

pub const INACTIVE_OVER_30_DAYS: &'static str = "Contract has been inactive for over 30 days.";

pub const HEALTHY_AND_ACTIVE: &'static str = "Contract is healthy and active. Keep it up!";

/// How far a contract has been verified. Each level carries its own degree of
/// trust, which moves the health score of the contract.
#[derive(Debug, Clone, Copy, PartialEq, Eq, Structural)]
pub enum VerificationLevel {
    /// No source code has been matched.
    Unverified,
    /// Verification is in progress or awaits review.
    Pending,
    /// The source code matches the deployed bytecode.
    Verified,
    /// Verified, and audited by a trusted security firm.
    Audited,
}

/// How healthy a contract is.
#[derive(Debug, Clone, Copy, PartialEq, Eq, Structural)]
pub enum HealthStatus {
    Healthy,
    Warning,
    Critical,
}

/// What the health of a contract depends on.
#[derive(Debug)]
pub struct Contract {
    pub id: Uuid,
    pub is_verified: bool,
    pub created_at: Timestamp,
}

/// What the health of a contract depends on in its usage statistics.
#[derive(Debug)]
pub struct ContractStats {
    pub last_interaction: Option<Timestamp>,
}

/// The health report of a contract.
#[derive(Debug)]
pub struct ContractHealth {
    pub contract_id: Uuid,
    pub status: HealthStatus,
    pub last_activity: Timestamp,
    pub security_score: i32,
    pub audit_date: Option<Timestamp>,
    pub total_score: i32,
    pub recommendations: Vec<String>,
    pub updated_at: Timestamp,
}

/// What a `ContractHealth` stands for.
#[verifier::ext_equal]
pub struct HealthView {
    pub contract_id: Uuid,
    pub status: HealthStatus,
    pub last_activity: Instant,
    pub security_score: int,
    pub audit_date: Option<Instant>,
    pub total_score: int,
    pub recommendations: Seq<Seq<char>>,
    pub updated_at: Instant,
}

impl View for ContractHealth {
    type V = HealthView;

    open spec fn view(&self) -> HealthView {
        HealthView {
            contract_id: self.contract_id,
            status: self.status,
            last_activity: self.last_activity@,
            security_score: self.security_score as int,
            audit_date: match self.audit_date {
                Some(t) => Some(t@),
                None => None,
            },
            total_score: self.total_score as int,
            recommendations: texts(self.recommendations@),
            updated_at: self.updated_at@,
        }
    }
}

/// `score`, moved to the nearest end of the scale of total scores where it
/// lies outside.
pub open spec fn bounded(score: int) -> int {
    if score < MIN_TOTAL_HEALTH_SCORE {
        MIN_TOTAL_HEALTH_SCORE as int
    } else if score > MAX_TOTAL_HEALTH_SCORE {
        MAX_TOTAL_HEALTH_SCORE as int
    } else {
        score
    }
}

/// The security score that goes with a total score: half of it, rounded down.
pub open spec fn security_score(total: int) -> int {
    bounded(total) / (SECURITY_SCORE_DIVISOR as int)
}

/// What inactivity for `days` whole days takes off the score.
pub open spec fn inactivity_penalty(days: int) -> int {
    if days > INACTIVITY_CRITICAL_DAYS {
        2 * INACTIVITY_PENALTY
    } else if days > INACTIVITY_WARNING_DAYS {
        INACTIVITY_PENALTY as int
    } else {
        0
    }
}

/// The total score of a contract at `level` that was inactive for `days` whole
/// days.
pub open spec fn total_score(level: VerificationLevel, days: int) -> int {
    bounded(MAX_TOTAL_HEALTH_SCORE + level.weight() - inactivity_penalty(days))
}

/// The status that goes with a total score.
pub open spec fn status_for(score: int) -> HealthStatus {
    if score >= HEALTHY_STATUS_MIN_SCORE {
        HealthStatus::Healthy
    } else if score >= WARNING_STATUS_MIN_SCORE {
        HealthStatus::Warning
    } else {
        HealthStatus::Critical
    }
}

/// What is recommended at a verification level.
pub open spec fn level_advice(level: VerificationLevel) -> Seq<Seq<char>> {
    match level {
        VerificationLevel::Unverified => seq![VERIFY_SOURCE@],
        VerificationLevel::Pending => seq![VERIFICATION_PENDING@],
        VerificationLevel::Verified => seq![OBTAIN_AUDIT@],
        VerificationLevel::Audited => seq![],
    }
}

/// What is recommended after `days` whole days without activity.
pub open spec fn activity_advice(days: int) -> Seq<Seq<char>> {
    if days > INACTIVITY_CRITICAL_DAYS {
        seq![INACTIVE_OVER_90_DAYS@]
    } else if days > INACTIVITY_WARNING_DAYS {
        seq![INACTIVE_OVER_30_DAYS@]
    } else {
        seq![]
    }
}

/// All recommendations, in order; praise where there are none.
pub open spec fn recommendations(level: VerificationLevel, days: int) -> Seq<Seq<char>> {
    let advice = level_advice(level) + activity_advice(days);
    if advice.len() == 0 {
        seq![HEALTHY_AND_ACTIVE@]
    } else {
        advice
    }
}

/// When a contract was last active: at its last interaction, or else at its
/// creation.
pub open spec fn last_activity(contract: Contract, stats: Option<&ContractStats>) -> Timestamp {
    match stats {
        Some(s) => match s.last_interaction {
            Some(t) => t,
            None => contract.created_at,
        },
        None => contract.created_at,
    }
}

/// The report on `contract`, with its activity judged at `now` and the report
/// dated `updated_at`.
pub open spec fn health_of(
    contract: Contract,
    stats: Option<&ContractStats>,
    level: VerificationLevel,
    now: Instant,
    updated_at: Instant,
) -> HealthView {
    let active_at = last_activity(contract, stats)@;
    let days = whole_days(elapsed_nanos(now, active_at));
    let score = total_score(level, days);
    HealthView {
        contract_id: contract.id,
        status: status_for(score),
        last_activity: active_at,
        security_score: security_score(score),
        audit_date: None,
        total_score: score,
        recommendations: recommendations(level, days),
        updated_at,
    }
}

impl VerificationLevel {
    /// What the level adds to the health score.
    pub open spec fn weight(self) -> int {
        match self {
            VerificationLevel::Unverified => -40,
            VerificationLevel::Pending => -20,
            VerificationLevel::Verified => 0,
            VerificationLevel::Audited => 20,
        }
    }

    /// Returns what the level adds to the health score.
    pub fn score_weight(&self) -> (weight: i32)
        ensures
            weight == self.weight(),
    {
        match self {
            // Nothing is known of the code: a severe penalty.
            VerificationLevel::Unverified => -40,
            // Not verified yet, but on the way.
            VerificationLevel::Pending => -20,
            // What is expected of a contract.
            VerificationLevel::Verified => 0,
            // Trusted beyond that: a substantial bonus.
            VerificationLevel::Audited => 20,
        }
    }
}

/// The level that the registry's verification flag stands for.
pub open spec fn level_of_flag(is_verified: bool) -> VerificationLevel {
    if is_verified {
        VerificationLevel::Verified
    } else {
        VerificationLevel::Unverified
    }
}

/// Returns the level that the registry's verification flag stands for.
pub fn verification_level(is_verified: bool) -> (level: VerificationLevel)
    ensures
        level == level_of_flag(is_verified),
{
    if is_verified {
        VerificationLevel::Verified
    } else {
        VerificationLevel::Unverified
    }
}

/// Moves `score` to the nearest end of the scale where it lies outside.
fn bound_score(score: i32) -> (r: i32)
    ensures
        r == bounded(score as int),
{
    if score < MIN_TOTAL_HEALTH_SCORE {
        MIN_TOTAL_HEALTH_SCORE
    } else if score > MAX_TOTAL_HEALTH_SCORE {
        MAX_TOTAL_HEALTH_SCORE
    } else {
        score
    }
}

/// Returns the security score that goes with a total score.
pub fn derive_security_score(total_score: i32) -> (score: i32)
    ensures
        score == security_score(total_score as int),
        MIN_SECURITY_SCORE <= score <= MAX_SECURITY_SCORE,
{
    bound_score(total_score) / SECURITY_SCORE_DIVISOR
}

/// Returns the status that goes with a total score.
fn status(score: i32) -> (status: HealthStatus)
    ensures
        status == status_for(score as int),
{
    if score >= HEALTHY_STATUS_MIN_SCORE {
        HealthStatus::Healthy
    } else if score >= WARNING_STATUS_MIN_SCORE {
        HealthStatus::Warning
    } else {
        HealthStatus::Critical
    }
}

/// Returns the recommendations for a contract at `level` that was inactive for
/// `days` whole days.
fn recommend(level: &VerificationLevel, days: i64) -> (advice: Vec<String>)
    ensures
        texts(advice@) == recommendations(*level, days as int),
{
    let mut advice: Vec<String> = Vec::new();
    match level {
        VerificationLevel::Unverified => advice.push(VERIFY_SOURCE.to_string()),
        VerificationLevel::Pending => advice.push(VERIFICATION_PENDING.to_string()),
        VerificationLevel::Verified => advice.push(OBTAIN_AUDIT.to_string()),
        VerificationLevel::Audited => {},
    }
    if days > INACTIVITY_CRITICAL_DAYS {
        advice.push(INACTIVE_OVER_90_DAYS.to_string());
    } else if days > INACTIVITY_WARNING_DAYS {
        advice.push(INACTIVE_OVER_30_DAYS.to_string());
    }
    if advice.is_empty() {
        advice.push(HEALTHY_AND_ACTIVE.to_string());
    }
    assert(texts(advice@) =~= recommendations(*level, days as int));
    advice
}

/// Reports on `contract`, with its activity judged at `now` and the report
/// dated `updated_at`.
pub fn calculate_health_at(
    contract: &Contract,
    stats: Option<&ContractStats>,
    verification_level: VerificationLevel,
    now: Timestamp,
    updated_at: Timestamp,
) -> (health: ContractHealth)
    ensures
        health@ == health_of(*contract, stats, verification_level, now@, updated_at@),
{
    let last_activity: Timestamp = match stats {
        Some(s) => match s.last_interaction {
            Some(t) => t,
            None => contract.created_at,
        },
        None => contract.created_at,
    };
    let days = days_between(now, last_activity);

    let mut score: i32 = MAX_TOTAL_HEALTH_SCORE + verification_level.score_weight();
    if days > INACTIVITY_WARNING_DAYS {
        score = score - INACTIVITY_PENALTY;
    }
    if days > INACTIVITY_CRITICAL_DAYS {
        score = score - INACTIVITY_PENALTY;
    }
    score = bound_score(score);

    ContractHealth {
        contract_id: contract.id,
        status: status(score),
        last_activity,
        security_score: derive_security_score(score),
        audit_date: None,
        total_score: score,
        recommendations: recommend(&verification_level, days),
        updated_at,
    }
}

/// Reports on `contract` as of now. The clock is read twice: once to judge the
/// activity, and once to date the report.
pub fn calculate_health(
    contract: &Contract,
    stats: Option<&ContractStats>,
    verification_level: VerificationLevel,
) -> (health: ContractHealth)
    ensures
        exists|now: Instant, updated_at: Instant|
            clock_reading(now) && clock_reading(updated_at) && shown_by_clock(now)
                && shown_by_clock(updated_at) && health@ == #[trigger] health_of(
                *contract,
                stats,
                verification_level,
                now,
                updated_at,
            ),
{
    let now = utc_now();
    let updated_at = utc_now();
    calculate_health_at(contract, stats, verification_level, now, updated_at)
}

/// Every score lies on its scale, and the security score is half of the total
/// score to within rounding down.
pub proof fn law_scores_on_scale(level: VerificationLevel, days: int)
    ensures
        MIN_TOTAL_HEALTH_SCORE <= total_score(level, days) <= MAX_TOTAL_HEALTH_SCORE,
        MIN_SECURITY_SCORE <= security_score(total_score(level, days)) <= MAX_SECURITY_SCORE,
        0 <= total_score(level, days) - 2 * security_score(total_score(level, days)) <= 1,
{
}

/// The security score never falls when the total score rises, and stays at the
/// end of its scale for every total score beyond the scale.
pub proof fn law_security_score_monotone(low: int, high: int)
    requires
        low <= high,
    ensures
        security_score(low) <= security_score(high),
        high <= MIN_TOTAL_HEALTH_SCORE ==> security_score(high) == MIN_SECURITY_SCORE,
        low >= MAX_TOTAL_HEALTH_SCORE ==> security_score(low) == MAX_SECURITY_SCORE,
{
}

/// The status can be told from the security score: its thresholds are those of
/// the total score, halved.
pub proof fn law_status_from_security_score(total: int)
    ensures
        status_for(total) is Healthy <==> security_score(total) >= security_score(
            HEALTHY_STATUS_MIN_SCORE as int,
        ),
        status_for(total) is Critical <==> security_score(total) < security_score(
            WARNING_STATUS_MIN_SCORE as int,
        ),
        security_score(HEALTHY_STATUS_MIN_SCORE as int) == 40,
        security_score(WARNING_STATUS_MIN_SCORE as int) == 25,
{
}

/// What each level is worth.
pub proof fn law_weights(level: VerificationLevel)
    ensures
        level is Unverified ==> level.weight() == -40,
        level is Pending ==> level.weight() == -20,
        level is Verified ==> level.weight() == 0,
        level is Audited ==> level.weight() == 20,
{
}

/// The registry's flag tells verified contracts from unverified ones, and
/// stands for no other level.
pub proof fn law_flag_levels(is_verified: bool)
    ensures
        is_verified <==> level_of_flag(is_verified) is Verified,
        !is_verified <==> level_of_flag(is_verified) is Unverified,
{
}

/// The security score is half of every total score on the scale, to within
/// rounding down, and an end of its scale for every other.
pub proof fn law_security_score_is_half(total: int)
    ensures
        0 <= total <= 100 ==> 2 * security_score(total) <= total < 2 * security_score(total) + 2,
        total < 0 ==> security_score(total) == 0,
        total > 100 ==> security_score(total) == 50,
{
}

/// The total score at every level, before, between and beyond the two
/// thresholds of inactivity.
pub proof fn law_score_table(level: VerificationLevel, days: int)
    ensures
        level is Unverified ==> total_score(level, days) == (if days <= 30 {
            60int
        } else if days <= 90 {
            40
        } else {
            20
        }),
        level is Pending ==> total_score(level, days) == (if days <= 30 {
            80int
        } else if days <= 90 {
            60
        } else {
            40
        }),
        level is Verified ==> total_score(level, days) == (if days <= 30 {
            100int
        } else if days <= 90 {
            80
        } else {
            60
        }),
        level is Audited ==> total_score(level, days) == (if days <= 90 {
            100int
        } else {
            80
        }),
{
}

/// Inactivity costs nothing up to the first threshold, and beyond it just the
/// penalty, at every level: all of it, except that the bonus of an audit first
/// goes to make up for it.
pub proof fn law_score_takes_off_penalty(level: VerificationLevel, days: int)
    ensures
        days <= 30 ==> inactivity_penalty(days) == 0 && total_score(level, days) == total_score(
            level,
            0,
        ),
        30 < days <= 90 ==> inactivity_penalty(days) == 20,
        days > 90 ==> inactivity_penalty(days) == 40,
        !(level is Audited) ==> total_score(level, 0) - total_score(level, days)
            == inactivity_penalty(days),
        level is Audited && days > 30 ==> total_score(level, 0) - total_score(level, days)
            == inactivity_penalty(days) - 20,
{
}

/// The recommendations name the level, then the inactivity, each where there is
/// something to say of it; where there is not, they are praise.
pub proof fn law_recommendation_texts(level: VerificationLevel, days: int)
    ensures
        ({
            let advice = recommendations(level, days);
            &&& advice.len() == if !(level is Audited) && days > 30 {
                2int
            } else {
                1
            }
            &&& level is Unverified ==> advice[0]
                == "Verify the contract source code to improve trust and health score."@
            &&& level is Pending ==> advice[0]
                == "Contract verification is pending. Health score will improve once verification is complete."@
            &&& level is Verified ==> advice[0]
                == "Consider obtaining an external audit to achieve maximum trust and health score."@
            &&& level is Audited && days <= 30 ==> advice[0]
                == "Contract is healthy and active. Keep it up!"@
            &&& 30 < days <= 90 ==> advice.last()
                == "Contract has been inactive for over 30 days."@
            &&& days > 90 ==> advice.last()
                == "Contract has been inactive for over 90 days. Consider engaging users or updating the contract."@
        }),
{
}

/// What a report says of a contract: whose it is, when the contract was last
/// active, and scores, status and recommendations that go by the level and by
/// the whole days from then to `now`.
pub proof fn law_report(
    contract: Contract,
    stats: Option<&ContractStats>,
    level: VerificationLevel,
    now: Instant,
    updated_at: Instant,
)
    ensures
        ({
            let health = health_of(contract, stats, level, now, updated_at);
            let days = whole_days(elapsed_nanos(now, health.last_activity));
            &&& health.contract_id == contract.id
            &&& health.audit_date is None
            &&& health.updated_at == updated_at
            &&& stats is None ==> health.last_activity == contract.created_at@
            &&& stats matches Some(s) ==> match s.last_interaction {
                Some(t) => health.last_activity == t@,
                None => health.last_activity == contract.created_at@,
            }
            &&& health.total_score == total_score(level, days)
            &&& health.recommendations == recommendations(level, days)
            &&& 2 * health.security_score <= health.total_score < 2 * health.security_score + 2
            &&& health.status is Healthy <==> health.total_score >= 80
            &&& health.status is Warning <==> 50 <= health.total_score < 80
            &&& health.status is Critical <==> health.total_score < 50
        }),
{
}

/// The total score of a report, by the level and by the time in nanoseconds
/// from the last activity to `now`, outside of leap seconds: it falls when
/// full days pass, at the end of day 31 and at the end of day 91.
pub proof fn law_report_score(
    contract: Contract,
    stats: Option<&ContractStats>,
    level: VerificationLevel,
    now: Instant,
    updated_at: Instant,
)
    requires
        now.nanos < 1_000_000_000,
        last_activity(contract, stats)@.nanos < 1_000_000_000,
    ensures
        ({
            let health = health_of(contract, stats, level, now, updated_at);
            let idle = (now.secs - health.last_activity.secs) * 1_000_000_000 + now.nanos
                - health.last_activity.nanos;
            let passed: int = if idle < 31 * 86_400_000_000_000 {
                0
            } else if idle < 91 * 86_400_000_000_000 {
                1
            } else {
                2
            };
            &&& level is Unverified ==> health.total_score == 60 - 20 * passed
            &&& level is Pending ==> health.total_score == 80 - 20 * passed
            &&& level is Verified ==> health.total_score == 100 - 20 * passed
            &&& level is Audited ==> health.total_score == if passed == 2 {
                80int
            } else {
                100
            }
        }),
{
}

/// The parts of a report stand for themselves.
pub proof fn law_report_parts(health: ContractHealth)
    ensures
        health@.contract_id == health.contract_id,
        health@.status == health.status,
        health@.last_activity == health.last_activity@,
        health@.security_score == health.security_score,
        health.audit_date is None <==> health@.audit_date is None,
        health.audit_date matches Some(t) ==> health@.audit_date == Some(t@),
        health@.total_score == health.total_score,
        health@.recommendations.len() == health.recommendations@.len(),
        forall|i: int|
            0 <= i < health.recommendations@.len() ==> #[trigger] health@.recommendations[i]
                == health.recommendations@[i]@,
        health@.updated_at == health.updated_at@,
{
}

/// More trust never lowers the score: where one level carries at least the
/// weight of another, its score is at least that of the other. The levels in
/// order of weight are unverified, pending, verified and audited.
pub proof fn law_trust_raises_score(lower: VerificationLevel, higher: VerificationLevel, days: int)
    requires
        lower.weight() <= higher.weight(),
    ensures
        total_score(lower, days) <= total_score(higher, days),
        VerificationLevel::Unverified.weight() < VerificationLevel::Pending.weight(),
        VerificationLevel::Pending.weight() < VerificationLevel::Verified.weight(),
        VerificationLevel::Verified.weight() < VerificationLevel::Audited.weight(),
{
}

/// Longer inactivity never raises the score.
pub proof fn law_inactivity_lowers_score(level: VerificationLevel, shorter: int, longer: int)
    requires
        shorter <= longer,
    ensures
        total_score(level, longer) <= total_score(level, shorter),
{
}

/// An audited contract is healthy however long it was inactive, and an
/// unverified one is never healthy.
pub proof fn law_extreme_levels(days: int)
    ensures
        status_for(total_score(VerificationLevel::Audited, days)) is Healthy,
        !(status_for(total_score(VerificationLevel::Unverified, days)) is Healthy),
{
}

/// A report goes by the identifier of the contract, its last activity, the
/// level and the times: nothing else about the contract changes it, its
/// verification flag included.
pub proof fn law_report_ignores_flag(
    a: Contract,
    a_stats: Option<&ContractStats>,
    b: Contract,
    b_stats: Option<&ContractStats>,
    level: VerificationLevel,
    now: Instant,
    updated_at: Instant,
)
    requires
        a.id == b.id,
        last_activity(a, a_stats)@ == last_activity(b, b_stats)@,
    ensures
        health_of(a, a_stats, level, now, updated_at) == health_of(
            b,
            b_stats,
            level,
            now,
            updated_at,
        ),
{
}

/// Inactivity counts from the first full day beyond a threshold on, and
/// activity that lies ahead of the clock is no inactivity.
pub proof fn law_inactivity_thresholds(now: Instant, active_at: Instant)
    ensures
        ({
            let elapsed = elapsed_nanos(now, active_at);
            let penalty = inactivity_penalty(whole_days(elapsed));
            &&& penalty >= INACTIVITY_PENALTY <==> elapsed >= (INACTIVITY_WARNING_DAYS + 1)
                * DAY_NANOS
            &&& penalty == 2 * INACTIVITY_PENALTY <==> elapsed >= (INACTIVITY_CRITICAL_DAYS + 1)
                * DAY_NANOS
            &&& elapsed <= 0 ==> penalty == 0
        }),
{
}

/// A report always recommends something, and at most two things. It praises
/// only an audited, active contract, and then says nothing else. It mentions
/// inactivity if and only if inactivity lowered the score.
pub proof fn law_recommendations(level: VerificationLevel, days: int)
    ensures
        1 <= recommendations(level, days).len() <= 2,
        level is Audited && inactivity_penalty(days) == 0 <==> recommendations(level, days)
            == seq![HEALTHY_AND_ACTIVE@],
        recommendations(level, days) == seq![HEALTHY_AND_ACTIVE@] ==> total_score(level, days)
            == MAX_TOTAL_HEALTH_SCORE,
        inactivity_penalty(days) > 0 <==> {
            ||| recommendations(level, days).contains(INACTIVE_OVER_30_DAYS@)
            ||| recommendations(level, days).contains(INACTIVE_OVER_90_DAYS@)
        },
{
    reveal_strlit("Verify the contract source code to improve trust and health score.");
    reveal_strlit(
        "Contract verification is pending. Health score will improve once verification is complete.",
    );
    reveal_strlit(
        "Consider obtaining an external audit to achieve maximum trust and health score.",
    );
    reveal_strlit(
        "Contract has been inactive for over 90 days. Consider engaging users or updating the contract.",
    );
    reveal_strlit("Contract has been inactive for over 30 days.");
    reveal_strlit("Contract is healthy and active. Keep it up!");
    assert(VERIFY_SOURCE@.len() == 66);
    assert(VERIFICATION_PENDING@.len() == 90);
    assert(OBTAIN_AUDIT@.len() == 79);
    assert(INACTIVE_OVER_90_DAYS@.len() == 94);
    assert(INACTIVE_OVER_30_DAYS@.len() == 44);
    assert(HEALTHY_AND_ACTIVE@.len() == 43);
    let advice = recommendations(level, days);
    let from_level = level_advice(level);
    let from_activity = activity_advice(days);
    if from_activity.len() > 0 {
        assert(advice[from_level.len() as int] == from_activity[0]);
    }
    if from_level.len() > 0 {
        assert(advice[0] == from_level[0]);
    }
}

} // verus!
