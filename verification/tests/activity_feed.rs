use contract_registry::activity_feed::{
    default_limit, effective_days, effective_limit, feed_page, plan_activity_feed,
    plan_activity_feed_at, ActivityFeedQuery, FEED_SQL,
};
use contract_registry::clock::Timestamp;
use contract_registry::sql::BindValue;
use uuid::Uuid;

fn at(secs: i64, nanos: u32) -> Timestamp {
    Timestamp::new(secs, nanos).unwrap()
}

fn plain_query() -> ActivityFeedQuery {
    ActivityFeedQuery {
        event_types: vec![],
        network: None,
        publisher_id: None,
        days: None,
        cursor: None,
        limit: default_limit(),
    }
}

fn words(sql: &str) -> String {
    let words: Vec<&str> = sql.split_whitespace().collect();
    words.join(" ")
}

#[test]
fn default_limit_is_twenty() {
    assert_eq!(default_limit(), 20);
}

#[test]
fn limit_is_bounded() {
    assert_eq!(effective_limit(i64::MIN), 1);
    assert_eq!(effective_limit(0), 1);
    assert_eq!(effective_limit(1), 1);
    assert_eq!(effective_limit(20), 20);
    assert_eq!(effective_limit(100), 100);
    assert_eq!(effective_limit(101), 100);
    assert_eq!(effective_limit(i64::MAX), 100);
}

#[test]
fn window_is_bounded() {
    assert_eq!(effective_days(None), 7);
    assert_eq!(effective_days(Some(i64::MIN)), 1);
    assert_eq!(effective_days(Some(0)), 1);
    assert_eq!(effective_days(Some(30)), 30);
    assert_eq!(effective_days(Some(365)), 365);
    assert_eq!(effective_days(Some(366)), 365);
}

#[test]
fn base_statement_reads_as_written() {
    assert_eq!(
        words(FEED_SQL),
        "SELECT ae.id, ae.event_type as \"event_type: AnalyticsEventType\", ae.contract_id, c.name as contract_name, c.contract_id as contract_stellar_id, ae.publisher_id, p.username as publisher_name, ae.network as \"network: Network\", ae.metadata, ae.created_at FROM analytics_events ae LEFT JOIN contracts c ON ae.contract_id = c.id LEFT JOIN publishers p ON ae.publisher_id = p.id WHERE ae.created_at >= $1"
    );
}

#[test]
fn plain_request_has_window_and_limit_only() {
    let plan = plan_activity_feed_at(&plain_query(), at(1_700_000_000, 123));
    assert_eq!(
        plan.statement.sql,
        format!("{} ORDER BY ae.created_at DESC LIMIT $2", FEED_SQL)
    );
    assert_eq!(
        plan.statement.binds,
        vec![
            BindValue::Time(at(1_700_000_000 - 7 * 86_400, 123)),
            BindValue::BigInteger(20),
        ]
    );
    assert_eq!(plan.limit, 20);
}

#[test]
fn full_request_numbers_every_condition() {
    let query = ActivityFeedQuery {
        event_types: vec!["contract_published".to_string(), "contract_verified".to_string()],
        network: Some("testnet".to_string()),
        publisher_id: Some(Uuid::from_u128(9)),
        days: Some(1),
        cursor: Some(at(1_699_999_999, 5)),
        limit: 500,
    };
    let plan = plan_activity_feed_at(&query, at(1_700_000_000, 0));
    assert_eq!(
        plan.statement.sql,
        format!(
            "{} AND ae.event_type = ANY($2) AND ae.network = $3 AND ae.publisher_id = $4 AND ae.created_at < $5 ORDER BY ae.created_at DESC LIMIT $6",
            FEED_SQL
        )
    );
    assert_eq!(
        plan.statement.binds,
        vec![
            BindValue::Time(at(1_699_913_600, 0)),
            BindValue::TextArray(vec![
                "contract_published".to_string(),
                "contract_verified".to_string(),
            ]),
            BindValue::Network("testnet".to_string()),
            BindValue::Id(Uuid::from_u128(9)),
            BindValue::Time(at(1_699_999_999, 5)),
            BindValue::BigInteger(100),
        ]
    );
    assert_eq!(plan.limit, 100);
}

#[test]
fn absent_conditions_leave_no_gap_in_the_numbers() {
    let query = ActivityFeedQuery {
        network: Some("mainnet".to_string()),
        cursor: Some(at(1_600_000_000, 0)),
        ..plain_query()
    };
    let plan = plan_activity_feed_at(&query, at(1_700_000_000, 0));
    assert_eq!(
        plan.statement.sql,
        format!(
            "{} AND ae.network = $2 AND ae.created_at < $3 ORDER BY ae.created_at DESC LIMIT $4",
            FEED_SQL
        )
    );
    assert_eq!(plan.statement.binds.len(), 4);
}

#[test]
fn placeholders_match_values_for_every_choice_of_conditions() {
    for choice in 0..16 {
        let query = ActivityFeedQuery {
            event_types: if choice & 1 != 0 { vec!["x".to_string()] } else { vec![] },
            network: if choice & 2 != 0 { Some("testnet".to_string()) } else { None },
            publisher_id: if choice & 4 != 0 { Some(Uuid::from_u128(1)) } else { None },
            cursor: if choice & 8 != 0 { Some(at(0, 0)) } else { None },
            ..plain_query()
        };
        let plan = plan_activity_feed_at(&query, at(1_700_000_000, 0));
        let numbers: Vec<usize> = plan
            .statement
            .sql
            .split('$')
            .skip(1)
            .map(|rest| {
                let digits: String = rest.chars().take_while(|c| c.is_ascii_digit()).collect();
                digits.parse().unwrap()
            })
            .collect();
        let expected: Vec<usize> = (1..=plan.statement.binds.len()).collect();
        assert_eq!(numbers, expected);
    }
}

#[test]
fn window_from_within_a_leap_second() {
    let plan = plan_activity_feed_at(&plain_query(), at(1_483_228_799, 1_250_000_000));
    assert_eq!(
        plan.statement.binds[0],
        BindValue::Time(at(1_483_228_800 - 7 * 86_400, 250_000_000))
    );
}

#[test]
fn window_ends_at_the_clock() {
    let before = chrono::Utc::now().timestamp() - 7 * 86_400;
    let plan = plan_activity_feed(&plain_query());
    let after = chrono::Utc::now().timestamp() - 7 * 86_400;
    match &plan.statement.binds[0] {
        BindValue::Time(start) => assert!(before <= start.secs() && start.secs() <= after),
        other => panic!("not a time: {:?}", other),
    }
}

#[test]
fn page_counts_its_own_entries() {
    let page = feed_page(vec!["a", "b", "c"], 20);
    assert_eq!(page.items, vec!["a", "b", "c"]);
    assert_eq!(page.total, 3);
    assert_eq!(page.page, 1);
    assert_eq!(page.limit, 20);
}

#[test]
fn text_depends_on_presence_only() {
    let now = at(1_700_000_000, 0);
    let first = ActivityFeedQuery {
        network: Some("testnet".to_string()),
        days: Some(3),
        ..plain_query()
    };
    let second = ActivityFeedQuery {
        network: Some("mainnet".to_string()),
        limit: 7,
        ..plain_query()
    };
    assert_eq!(
        plan_activity_feed_at(&first, now).statement.sql,
        plan_activity_feed_at(&second, now).statement.sql
    );
}

#[test]
fn same_bounds_give_the_same_plan() {
    let now = at(1_700_000_000, 0);
    let first = ActivityFeedQuery { days: Some(400), limit: 101, ..plain_query() };
    let second = ActivityFeedQuery { days: Some(9_000), limit: i64::MAX, ..plain_query() };
    assert_eq!(plan_activity_feed_at(&first, now), plan_activity_feed_at(&second, now));
}
