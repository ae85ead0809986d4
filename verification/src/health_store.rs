//! The statements of a health check: listing the contracts, looking up the
//! statistics of one, and storing the report on it.

use crate::health::{ContractHealth, HealthView};
use crate::sql::{
    bind_views, lemma_next_placeholder, lemma_no_placeholders, numbered, placeholders, BindValue,
    BindView, Statement,
};
use uuid::Uuid;
use vstd::prelude::*;

verus! {

/// Lists all contracts.
pub const LIST_CONTRACTS_SQL: &'static str = "SELECT * FROM contracts";

/// Looks up the statistics of a contract.
pub const STATS_SQL: &'static str = "SELECT * FROM contract_stats WHERE contract_id = $1";

/// The statement that looks up the statistics of the contract `contract_id`.
pub fn stats_statement(contract_id: Uuid) -> (statement: Statement)
    ensures
        statement.sql@ == STATS_SQL@,
        bind_views(statement.binds@) == seq![BindView::Id(contract_id)],
{
    let mut binds: Vec<BindValue> = Vec::new();
    binds.push(BindValue::Id(contract_id));
    assert(bind_views(binds@) =~= seq![BindView::Id(contract_id)]);
    Statement { sql: STATS_SQL.to_string(), binds }
}

/// Stores a report in place of the one that the contract had.
pub const UPSERT_SQL: &'static str =
    r#"
        INSERT INTO contract_health (contract_id, status, last_activity, security_score, audit_date, total_score, recommendations, updated_at)
        VALUES ($1, $2, $3, $4, $5, $6, $7, $8)
        ON CONFLICT (contract_id)
        DO UPDATE SET
            status = EXCLUDED.status,
            last_activity = EXCLUDED.last_activity,
            security_score = EXCLUDED.security_score,
            audit_date = EXCLUDED.audit_date,
            total_score = EXCLUDED.total_score,
            recommendations = EXCLUDED.recommendations,
            updated_at = EXCLUDED.updated_at
        "#;

/// The values of a report, in the order of the columns of `UPSERT_SQL`.
pub open spec fn upsert_binds(health: HealthView) -> Seq<BindView> {
    seq![
        BindView::Id(health.contract_id),
        BindView::Status(health.status),
        BindView::Time(health.last_activity),
        BindView::Integer(health.security_score),
        BindView::OptionalTime(health.audit_date),
        BindView::Integer(health.total_score),
        BindView::TextArray(health.recommendations),
        BindView::Time(health.updated_at),
    ]
}

/// The statement that stores `health` in place of the report that the contract
/// had.
pub fn upsert_statement(health: &ContractHealth) -> (statement: Statement)
    ensures
        statement.sql@ == UPSERT_SQL@,
        bind_views(statement.binds@) == upsert_binds(health@),
{
    let mut binds: Vec<BindValue> = Vec::new();
    binds.push(BindValue::Id(health.contract_id));
    binds.push(BindValue::Status(health.status));
    binds.push(BindValue::Time(health.last_activity));
    binds.push(BindValue::Integer(health.security_score));
    binds.push(BindValue::OptionalTime(health.audit_date));
    binds.push(BindValue::Integer(health.total_score));
    binds.push(BindValue::TextArray(health.recommendations.clone()));
    binds.push(BindValue::Time(health.updated_at));
    assert(bind_views(binds@) =~= upsert_binds(health@));
    Statement { sql: UPSERT_SQL.to_string(), binds }
}

/// The listing of the contracts has no placeholder, and the lookup of the
/// statistics just the one that its value is bound to.
pub proof fn law_reads_are_numbered()
    ensures
        numbered(LIST_CONTRACTS_SQL@, 0),
        numbered(STATS_SQL@, 1),
{
    reveal_strlit("SELECT * FROM contracts");
    lemma_no_placeholders(LIST_CONTRACTS_SQL@);
    assert(placeholders(LIST_CONTRACTS_SQL@) =~= Seq::new(0, |i: int| i + 1));

    let s = STATS_SQL@;
    reveal_strlit("SELECT * FROM contract_stats WHERE contract_id = $1");
    assert(s.skip(0) =~= s);
    lemma_next_placeholder(s, 0, 49, 1);
    lemma_no_placeholders(s.skip(51));
    assert(placeholders(s) =~= Seq::new(1, |i: int| i + 1));
}

/// The statement that stores a report has one placeholder for each of its
/// values, numbered in the order of the values.
pub proof fn law_upsert_is_numbered(health: HealthView)
    ensures
        numbered(UPSERT_SQL@, upsert_binds(health).len()),
{
    let s = UPSERT_SQL@;
    reveal_strlit(
        r#"
        INSERT INTO contract_health (contract_id, status, last_activity, security_score, audit_date, total_score, recommendations, updated_at)
        VALUES ($1, $2, $3, $4, $5, $6, $7, $8)
        ON CONFLICT (contract_id)
        DO UPDATE SET
            status = EXCLUDED.status,
            last_activity = EXCLUDED.last_activity,
            security_score = EXCLUDED.security_score,
            audit_date = EXCLUDED.audit_date,
            total_score = EXCLUDED.total_score,
            recommendations = EXCLUDED.recommendations,
            updated_at = EXCLUDED.updated_at
        "#,
    );
    assert(s.skip(0) =~= s);
    lemma_next_placeholder(s, 0, 160, 1);
    lemma_next_placeholder(s, 162, 164, 2);
    lemma_next_placeholder(s, 166, 168, 3);
    lemma_next_placeholder(s, 170, 172, 4);
    lemma_next_placeholder(s, 174, 176, 5);
    lemma_next_placeholder(s, 178, 180, 6);
    lemma_next_placeholder(s, 182, 184, 7);
    lemma_next_placeholder(s, 186, 188, 8);
    lemma_no_placeholders(s.skip(190));
    assert(placeholders(s) =~= Seq::new(8, |i: int| i + 1));
}

/// The value bound to the placeholder of each column is that part of the
/// report.
pub proof fn law_upsert_stores_every_part(health: HealthView)
    ensures
        upsert_binds(health).len() == 8,
        upsert_binds(health)[0] == BindView::Id(health.contract_id),
        upsert_binds(health)[1] == BindView::Status(health.status),
        upsert_binds(health)[2] == BindView::Time(health.last_activity),
        upsert_binds(health)[3] == BindView::Integer(health.security_score),
        upsert_binds(health)[4] == BindView::OptionalTime(health.audit_date),
        upsert_binds(health)[5] == BindView::Integer(health.total_score),
        upsert_binds(health)[6] == BindView::TextArray(health.recommendations),
        upsert_binds(health)[7] == BindView::Time(health.updated_at),
{
}

/// Nothing of a report is lost on the way to the database: two reports with the
/// same bound values are the same.
pub proof fn law_upsert_loses_nothing(a: HealthView, b: HealthView)
    requires
        upsert_binds(a) == upsert_binds(b),
    ensures
        a == b,
{
    law_upsert_stores_every_part(a);
    law_upsert_stores_every_part(b);
}

} // verus!
