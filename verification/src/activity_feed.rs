//! The activity feed: which entries a request asks for, as one SQL statement
//! with its bound values, and the page that is made of them.

use crate::clock::{
    clock_reading, days_before, shown_by_clock, utc_now, Instant, Timestamp, DAY_NANOS, MIN_SECS, SECOND_NANOS,
};
use crate::sql::{
    append_decimal, bind_views, decimal, free_of_dollars, is_digit, lemma_next_placeholder,
    lemma_no_placeholders, lemma_one_placeholder, lemma_placeholders_join, numbered, placeholders,
    texts, BindValue, BindView, Statement,
};
use uuid::Uuid;
use vstd::prelude::*;

verus! {

pub const DEFAULT_LIMIT: i64 = 20;

pub const MIN_LIMIT: i64 = 1;

pub const MAX_LIMIT: i64 = 100;

pub const DEFAULT_DAYS: i64 = 7;

pub const MIN_DAYS: i64 = 1;

pub const MAX_DAYS: i64 = 365;

/// The feed of every event since `$1`.
pub const FEED_SQL: &'static str =
    r#"
        SELECT 
            ae.id,
            ae.event_type as "event_type: AnalyticsEventType",
            ae.contract_id,
            c.name as contract_name,
            c.contract_id as contract_stellar_id,
            ae.publisher_id,
            p.username as publisher_name,
            ae.network as "network: Network",
            ae.metadata,
            ae.created_at
        FROM analytics_events ae
        LEFT JOIN contracts c ON ae.contract_id = c.id
        LEFT JOIN publishers p ON ae.publisher_id = p.id
        WHERE ae.created_at >= $1
        "#;

pub const EVENT_TYPE_FILTER: &'static str = " AND ae.event_type = ANY($";

pub const EVENT_TYPE_FILTER_END: &'static str = ")";

pub const NETWORK_FILTER: &'static str = " AND ae.network = $";

pub const PUBLISHER_FILTER: &'static str = " AND ae.publisher_id = $";

pub const CURSOR_FILTER: &'static str = " AND ae.created_at < $";

pub const LATEST_FIRST: &'static str = " ORDER BY ae.created_at DESC LIMIT $";

/// What a request asks of the feed.
#[derive(Debug)]
pub struct ActivityFeedQuery {
    /// The names of the event types to show; all where there are none.
    pub event_types: Vec<String>,
    /// The name of the network to show.
    pub network: Option<String>,
    pub publisher_id: Option<Uuid>,
    /// How many days to look back.
    pub days: Option<i64>,
    /// Only what is older than this is shown.
    pub cursor: Option<Timestamp>,
    /// How many entries to show at most.
    pub limit: i64,
}

/// How many entries a request gets at most.
pub open spec fn page_limit(limit: int) -> int {
    if limit < MIN_LIMIT {
        MIN_LIMIT as int
    } else if limit > MAX_LIMIT {
        MAX_LIMIT as int
    } else {
        limit
    }
}

/// How many days a request looks back.
pub open spec fn window_days(days: Option<i64>) -> int {
    let asked = match days {
        Some(d) => d,
        None => DEFAULT_DAYS,
    };
    if asked < MIN_DAYS {
        MIN_DAYS as int
    } else if asked > MAX_DAYS {
        MAX_DAYS as int
    } else {
        asked as int
    }
}

/// A condition on the entries: its text around the number of its placeholder,
/// and the value of the placeholder.
pub struct Filter {
    pub before: Seq<char>,
    pub after: Seq<char>,
    pub value: BindView,
}

/// The conditions of a request, in the order in which they are written.
pub open spec fn filters(query: ActivityFeedQuery) -> Seq<Filter> {
    event_type_filter(query) + network_filter(query) + publisher_filter(query) + cursor_filter(
        query,
    )
}

pub open spec fn event_type_filter(query: ActivityFeedQuery) -> Seq<Filter> {
    if query.event_types@.len() == 0 {
        seq![]
    } else {
        seq![
            Filter {
                before: EVENT_TYPE_FILTER@,
                after: EVENT_TYPE_FILTER_END@,
                value: BindView::TextArray(texts(query.event_types@)),
            },
        ]
    }
}

pub open spec fn network_filter(query: ActivityFeedQuery) -> Seq<Filter> {
    match query.network {
        Some(name) => seq![
            Filter {
                before: NETWORK_FILTER@,
                after: seq![],
                value: BindView::Network(name@),
            },
        ],
        None => seq![],
    }
}

pub open spec fn publisher_filter(query: ActivityFeedQuery) -> Seq<Filter> {
    match query.publisher_id {
        Some(id) => seq![
            Filter { before: PUBLISHER_FILTER@, after: seq![], value: BindView::Id(id) },
        ],
        None => seq![],
    }
}

pub open spec fn cursor_filter(query: ActivityFeedQuery) -> Seq<Filter> {
    match query.cursor {
        Some(t) => seq![
            Filter { before: CURSOR_FILTER@, after: seq![], value: BindView::Time(t@) },
        ],
        None => seq![],
    }
}

/// A condition with its placeholder numbered `index`.
pub open spec fn clause(filter: Filter, index: nat) -> Seq<char> {
    filter.before + decimal(index) + filter.after
}

/// The conditions in order, their placeholders numbered from 2.
pub open spec fn clauses(filters: Seq<Filter>) -> Seq<char>
    decreases filters.len(),
{
    if filters.len() == 0 {
        seq![]
    } else {
        clauses(filters.drop_last()) + clause(filters.last(), filters.len() + 1)
    }
}

/// The text of the statement of a request.
pub open spec fn feed_sql(query: ActivityFeedQuery) -> Seq<char> {
    FEED_SQL@ + clauses(filters(query)) + LATEST_FIRST@ + decimal(filters(query).len() + 2)
}

/// The values of the placeholders of a request that comes at `now`: the start
/// of the window, the values of the conditions, and the limit.
pub open spec fn feed_binds(query: ActivityFeedQuery, now: Instant) -> Seq<BindView> {
    seq![BindView::Time(now.minus_days(window_days(query.days)))] + filter_values(filters(query))
        + seq![BindView::BigInteger(page_limit(query.limit as int))]
}

pub open spec fn filter_values(filters: Seq<Filter>) -> Seq<BindView> {
    filters.map_values(|f: Filter| f.value)
}

/// Returns how many entries a request gets that does not say.
pub fn default_limit() -> (limit: i64)
    ensures
        limit == DEFAULT_LIMIT,
        limit == 20,
{
    DEFAULT_LIMIT
}

/// Moves `value` to the nearest end of `low` to `high` where it lies outside.
fn clamp(value: i64, low: i64, high: i64) -> (r: i64)
    requires
        low <= high,
    ensures
        r == if value < low {
            low
        } else if value > high {
            high
        } else {
            value
        },
{
    if value < low {
        low
    } else if value > high {
        high
    } else {
        value
    }
}

/// Returns how many entries a request gets at most.
pub fn effective_limit(limit: i64) -> (r: i64)
    ensures
        r == page_limit(limit as int),
{
    clamp(limit, MIN_LIMIT, MAX_LIMIT)
}

/// Returns how many days a request looks back.
pub fn effective_days(days: Option<i64>) -> (r: i64)
    ensures
        r == window_days(days),
{
    let asked: i64 = match days {
        Some(d) => d,
        None => DEFAULT_DAYS,
    };
    clamp(asked, MIN_DAYS, MAX_DAYS)
}

/// A request made ready: the statement that fetches its entries, and how many
/// it gets at most.
#[derive(Debug, PartialEq)]
pub struct FeedPlan {
    pub statement: Statement,
    pub limit: i64,
}

/// `sql` holds the conditions `done` and no other, and `binds` their values
/// behind the start of the window.
#[verifier::opaque]
spec fn written(
    sql: Seq<char>,
    binds: Seq<BindValue>,
    start: BindView,
    done: Seq<Filter>,
) -> bool {
    &&& sql == FEED_SQL@ + clauses(done)
    &&& bind_views(binds) == seq![start] + filter_values(done)
}

/// Appends a condition, its placeholder numbered by the place that its value
/// takes among the bound values.
fn append_filter(
    sql: &mut String,
    binds: &mut Vec<BindValue>,
    before: &str,
    after: &str,
    value: BindValue,
    Ghost(start): Ghost<BindView>,
    Ghost(done): Ghost<Seq<Filter>>,
    Ghost(filter): Ghost<Filter>,
)
    requires
        written(old(sql)@, old(binds)@, start, done),
        done.len() < 10,
        filter == (Filter { before: before@, after: after@, value: value@ }),
    ensures
        written(final(sql)@, final(binds)@, start, done.push(filter)),
{
    reveal(written);
    let ghost sql_before = sql@;
    let ghost binds_before = binds@;
    assert(binds@.len() == bind_views(binds@).len());
    let index: u32 = binds.len() as u32 + 1;
    sql.append(before);
    append_decimal(sql, index);
    sql.append(after);
    binds.push(value);
    proof {
        lemma_filter_appended(done, filter);
        assert(sql@ =~= sql_before + clause(filter, index as nat));
        assert(sql@ =~= FEED_SQL@ + clauses(done.push(filter)));
        assert(bind_views(binds@) =~= bind_views(binds_before).push(value@));
        assert(bind_views(binds@) =~= seq![start] + filter_values(done.push(filter)));
    }
}

/// Makes a request ready that comes at `now`.
pub fn plan_activity_feed_at(query: &ActivityFeedQuery, now: Timestamp) -> (plan: FeedPlan)
    requires
        MIN_SECS * SECOND_NANOS <= now@.total_nanos() - window_days(query.days) * DAY_NANOS,
    ensures
        plan.statement.sql@ == feed_sql(*query),
        bind_views(plan.statement.binds@) == feed_binds(*query, now@),
        plan.limit == page_limit(query.limit as int),
{
    let limit = effective_limit(query.limit);
    let start_time = days_before(now, effective_days(query.days));

    let mut sql = FEED_SQL.to_string();
    let mut binds: Vec<BindValue> = Vec::new();
    binds.push(BindValue::Time(start_time));
    let ghost start = BindView::Time(start_time@);
    let ghost mut done: Seq<Filter> = seq![];
    proof {
        reveal(written);
        reveal_strlit("");
        assert(""@ =~= seq![]);
        assert(sql@ =~= FEED_SQL@ + clauses(done));
        assert(bind_views(binds@) =~= seq![start] + filter_values(done));
    }

    if !query.event_types.is_empty() {
        let ghost filter = event_type_filter(*query)[0];
        let names = query.event_types.clone();
        assert(texts(names@) =~= texts(query.event_types@));
        append_filter(
            &mut sql,
            &mut binds,
            EVENT_TYPE_FILTER,
            EVENT_TYPE_FILTER_END,
            BindValue::TextArray(names),
            Ghost(start),
            Ghost(done),
            Ghost(filter),
        );
        proof {
            done = done.push(filter);
        }
    }
    assert(done =~= event_type_filter(*query));

    if let Some(name) = &query.network {
        let ghost filter = network_filter(*query)[0];
        append_filter(
            &mut sql,
            &mut binds,
            NETWORK_FILTER,
            "",
            BindValue::Network(name.clone()),
            Ghost(start),
            Ghost(done),
            Ghost(filter),
        );
        proof {
            done = done.push(filter);
        }
    }
    assert(done =~= event_type_filter(*query) + network_filter(*query));

    if let Some(id) = query.publisher_id {
        let ghost filter = publisher_filter(*query)[0];
        append_filter(
            &mut sql,
            &mut binds,
            PUBLISHER_FILTER,
            "",
            BindValue::Id(id),
            Ghost(start),
            Ghost(done),
            Ghost(filter),
        );
        proof {
            done = done.push(filter);
        }
    }
    assert(done =~= event_type_filter(*query) + network_filter(*query) + publisher_filter(*query));

    if let Some(cursor) = query.cursor {
        let ghost filter = cursor_filter(*query)[0];
        append_filter(
            &mut sql,
            &mut binds,
            CURSOR_FILTER,
            "",
            BindValue::Time(cursor),
            Ghost(start),
            Ghost(done),
            Ghost(filter),
        );
        proof {
            done = done.push(filter);
        }
    }
    assert(done =~= filters(*query));

    let ghost last = Filter {
        before: LATEST_FIRST@,
        after: seq![],
        value: BindView::BigInteger(limit as int),
    };
    append_filter(
        &mut sql,
        &mut binds,
        LATEST_FIRST,
        "",
        BindValue::BigInteger(limit),
        Ghost(start),
        Ghost(done),
        Ghost(last),
    );
    proof {
        reveal(written);
        lemma_filter_appended(done, last);
        assert(sql@ =~= feed_sql(*query));
        assert(bind_views(binds@) =~= feed_binds(*query, now@));
    }
    FeedPlan { statement: Statement { sql, binds }, limit }
}

/// Makes a request ready that comes now.
pub fn plan_activity_feed(query: &ActivityFeedQuery) -> (plan: FeedPlan)
    ensures
        plan.statement.sql@ == feed_sql(*query),
        exists|now: Instant|
            clock_reading(now) && shown_by_clock(now) && bind_views(plan.statement.binds@) == #[trigger] feed_binds(
                *query,
                now,
            ),
        plan.limit == page_limit(query.limit as int),
{
    let now = utc_now();
    plan_activity_feed_at(query, now)
}

/// A page of the feed.
#[derive(Debug, PartialEq)]
pub struct FeedPage<T> {
    pub items: Vec<T>,
    pub total: i64,
    pub page: i64,
    pub limit: i64,
}

/// The page that is made of the entries fetched for a request: it is always
/// the first, and its total counts only the entries on it.
pub fn feed_page<T>(entries: Vec<T>, limit: i64) -> (page: FeedPage<T>)
    ensures
        page.items == entries,
        page.total == entries.len() as i64,
        entries@.len() <= i64::MAX ==> page.total == entries@.len(),
        page.page == 1,
        page.limit == limit,
{
    let total = entries.len() as i64;
    FeedPage { items: entries, total, page: 1, limit }
}

/// Appending one more condition numbers it next.
proof fn lemma_filter_appended(done: Seq<Filter>, filter: Filter)
    ensures
        clauses(done.push(filter)) == clauses(done) + clause(filter, done.len() + 2),
        filter_values(done.push(filter)) == filter_values(done).push(filter.value),
{
    assert(done.push(filter).drop_last() =~= done);
    assert(filter_values(done.push(filter)) =~= filter_values(done).push(filter.value));
}

/// The text of a condition ends in a `$` before the number and holds no other,
/// and no digit of its own can run into a number.
spec fn well_marked(filter: Filter) -> bool {
    &&& filter.before.len() >= 2
    &&& filter.before.last() == '$'
    &&& !is_digit(filter.before[0])
    &&& free_of_dollars(filter.before.drop_last())
    &&& free_of_dollars(filter.after)
    &&& filter.after.len() == 0 || !is_digit(filter.after[0])
}

proof fn lemma_clause_placeholders(filter: Filter, index: nat)
    requires
        well_marked(filter),
    ensures
        placeholders(clause(filter, index)) == seq![index as int],
        clause(filter, index).len() > 0,
        !is_digit(clause(filter, index)[0]),
{
    let gap = filter.before.drop_last();
    let mark = seq!['$'] + decimal(index);
    assert(clause(filter, index) =~= gap + (mark + filter.after));
    lemma_placeholders_join(gap, mark + filter.after);
    lemma_no_placeholders(gap);
    lemma_placeholders_join(mark, filter.after);
    lemma_no_placeholders(filter.after);
    lemma_one_placeholder(index);
    assert(placeholders(clause(filter, index)) =~= seq![index as int]);
}

proof fn lemma_feed_sql_placeholders()
    ensures
        placeholders(FEED_SQL@) == seq![1int],
{
    let s = FEED_SQL@;
    reveal_strlit(
        r#"
        SELECT 
            ae.id,
            ae.event_type as "event_type: AnalyticsEventType",
            ae.contract_id,
            c.name as contract_name,
            c.contract_id as contract_stellar_id,
            ae.publisher_id,
            p.username as publisher_name,
            ae.network as "network: Network",
            ae.metadata,
            ae.created_at
        FROM analytics_events ae
        LEFT JOIN contracts c ON ae.contract_id = c.id
        LEFT JOIN publishers p ON ae.publisher_id = p.id
        WHERE ae.created_at >= $1
        "#,
    );
    assert(s.skip(0) =~= s);
    lemma_next_placeholder(s, 0, 558, 1);
    lemma_no_placeholders(s.skip(560));
    assert(placeholders(s) =~= seq![1int]);
}

proof fn lemma_filters_well_marked(query: ActivityFeedQuery)
    ensures
        forall|i: int| 0 <= i < filters(query).len() ==> well_marked(#[trigger] filters(query)[i]),
        forall|value: BindView|
            #[trigger] well_marked(Filter { before: LATEST_FIRST@, after: seq![], value }),
{
    reveal_strlit(" AND ae.event_type = ANY($");
    reveal_strlit(")");
    reveal_strlit(" AND ae.network = $");
    reveal_strlit(" AND ae.publisher_id = $");
    reveal_strlit(" AND ae.created_at < $");
    reveal_strlit(" ORDER BY ae.created_at DESC LIMIT $");
}

proof fn lemma_clauses_placeholders(filters: Seq<Filter>)
    requires
        forall|i: int| 0 <= i < filters.len() ==> well_marked(#[trigger] filters[i]),
    ensures
        numbered(FEED_SQL@ + clauses(filters), filters.len() + 1),
    decreases filters.len(),
{
    if filters.len() == 0 {
        lemma_feed_sql_placeholders();
        assert(FEED_SQL@ + clauses(filters) =~= FEED_SQL@);
        assert(placeholders(FEED_SQL@) =~= Seq::new(1, |i: int| i + 1));
    } else {
        let earlier = filters.drop_last();
        let last = clause(filters.last(), filters.len() + 1);
        assert forall|i: int| 0 <= i < earlier.len() implies well_marked(#[trigger] earlier[i]) by {
            assert(earlier[i] == filters[i]);
        }
        lemma_clauses_placeholders(earlier);
        assert(well_marked(filters[filters.len() - 1]));
        lemma_clause_placeholders(filters.last(), filters.len() + 1);
        assert(FEED_SQL@ + clauses(filters) =~= (FEED_SQL@ + clauses(earlier)) + last);
        lemma_placeholders_join(FEED_SQL@ + clauses(earlier), last);
        assert(placeholders(FEED_SQL@ + clauses(filters)) =~= Seq::new(
            filters.len() + 1,
            |i: int| i + 1,
        ));
    }
}

/// The statement of every request has one placeholder for each of its values,
/// numbered in the order of the values.
pub proof fn law_feed_is_numbered(query: ActivityFeedQuery, now: Instant)
    ensures
        numbered(feed_sql(query), feed_binds(query, now).len()),
{
    let all = filters(query);
    let last = Filter {
        before: LATEST_FIRST@,
        after: seq![],
        value: BindView::BigInteger(page_limit(query.limit as int)),
    };
    lemma_filters_well_marked(query);
    assert(well_marked(last));
    assert forall|i: int| 0 <= i < all.push(last).len() implies well_marked(
        #[trigger] all.push(last)[i],
    ) by {
        if i < all.len() {
            assert(all.push(last)[i] == all[i]);
        }
    }
    lemma_clauses_placeholders(all.push(last));
    lemma_filter_appended(all, last);
    assert(feed_sql(query) =~= FEED_SQL@ + clauses(all.push(last)));
}

/// Each condition is compared with its own value: the one bound to the
/// placeholder that stands in it. The start of the window comes first, and the
/// limit last.
pub proof fn law_conditions_meet_their_values(query: ActivityFeedQuery, now: Instant)
    ensures
        ({
            let binds = feed_binds(query, now);
            let all = filters(query);
            &&& binds.len() == all.len() + 2
            &&& binds[0] == BindView::Time(now.minus_days(window_days(query.days)))
            &&& forall|i: int|
                #![trigger all[i]]
                0 <= i < all.len() ==> binds[i + 1] == all[i].value && clauses(all.take(i + 1))
                    == clauses(all.take(i)) + clause(all[i], (i + 2) as nat)
            &&& binds.last() == BindView::BigInteger(page_limit(query.limit as int))
        }),
{
    let all = filters(query);
    assert forall|i: int| #![trigger all[i]] 0 <= i < all.len() implies clauses(all.take(i + 1))
        == clauses(all.take(i)) + clause(all[i], (i + 2) as nat) by {
        assert(all.take(i + 1) =~= all.take(i).push(all[i]));
        lemma_filter_appended(all.take(i), all[i]);
    }
}

proof fn lemma_clauses_with(done: Seq<Filter>, more: Seq<Filter>)
    requires
        more.len() <= 1,
    ensures
        clauses(done + more) == clauses(done) + if more.len() == 1 {
            clause(more[0], done.len() + 2)
        } else {
            seq![]
        },
{
    if more.len() == 1 {
        assert(done + more =~= done.push(more[0]));
        lemma_filter_appended(done, more[0]);
    } else {
        assert(done + more =~= done);
        assert(clauses(done) + seq![] =~= clauses(done));
    }
}

/// One where a condition is asked for, and none where it is not.
pub open spec fn counted(asked: bool) -> nat {
    if asked {
        1
    } else {
        0
    }
}

/// A number of one digit.
pub open spec fn one_digit(n: nat) -> Seq<char> {
    seq![('0' as int + n) as char]
}

proof fn lemma_join_left(a: Seq<char>, b: Seq<char>, c: Seq<char>, d: Seq<char>, e: Seq<char>)
    ensures
        a + (b + c + d + e) == a + b + c + d + e,
{
    assert(a + (b + c + d + e) =~= a + b + c + d + e);
}

proof fn lemma_clause_text(filter: Filter, n: nat)
    requires
        n < 10,
    ensures
        clause(filter, n) == filter.before + one_digit(n) + filter.after,
        filter.after.len() == 0 ==> clause(filter, n) == filter.before + one_digit(n),
{
    if filter.after.len() == 0 {
        assert(filter.before + one_digit(n) + filter.after =~= filter.before + one_digit(n));
    }
}

/// The text of the statement of a request, condition by condition: the ones
/// that are asked for stand in it, each with the number of a placeholder, and
/// nothing else does. The numbers count from 2 on, without a gap, up to the
/// limit's.
pub proof fn law_statement_text(query: ActivityFeedQuery)
    ensures
        ({
            let network = 2 + counted(query.event_types@.len() > 0);
            let publisher = network + counted(query.network is Some);
            let cursor = publisher + counted(query.publisher_id is Some);
            let limit = cursor + counted(query.cursor is Some);
            feed_sql(query) == FEED_SQL@ + (if query.event_types@.len() > 0 {
                " AND ae.event_type = ANY($"@ + one_digit(2) + ")"@
            } else {
                seq![]
            }) + (if query.network is Some {
                " AND ae.network = $"@ + one_digit(network)
            } else {
                seq![]
            }) + (if query.publisher_id is Some {
                " AND ae.publisher_id = $"@ + one_digit(publisher)
            } else {
                seq![]
            }) + (if query.cursor is Some {
                " AND ae.created_at < $"@ + one_digit(cursor)
            } else {
                seq![]
            }) + " ORDER BY ae.created_at DESC LIMIT $"@ + one_digit(limit)
        }),
{
    let types = event_type_filter(query);
    let network = network_filter(query);
    let publisher = publisher_filter(query);
    let cursor = cursor_filter(query);
    let none: Seq<char> = seq![];
    let with_types = if types.len() > 0 {
        clause(types[0], 2)
    } else {
        none
    };
    let with_network = if network.len() > 0 {
        clause(network[0], types.len() + 2)
    } else {
        none
    };
    let with_publisher = if publisher.len() > 0 {
        clause(publisher[0], types.len() + network.len() + 2)
    } else {
        none
    };
    let with_cursor = if cursor.len() > 0 {
        clause(cursor[0], types.len() + network.len() + publisher.len() + 2)
    } else {
        none
    };
    lemma_clauses_with(seq![], types);
    assert(seq![] + types =~= types);
    assert(none + with_types =~= with_types);
    lemma_clauses_with(types, network);
    lemma_clauses_with(types + network, publisher);
    lemma_clauses_with(types + network + publisher, cursor);
    assert(clauses(filters(query)) == with_types + with_network + with_publisher + with_cursor);
    lemma_join_left(FEED_SQL@, with_types, with_network, with_publisher, with_cursor);
    if types.len() > 0 {
        lemma_clause_text(types[0], 2);
    }
    if network.len() > 0 {
        lemma_clause_text(network[0], types.len() + 2);
    }
    if publisher.len() > 0 {
        lemma_clause_text(publisher[0], types.len() + network.len() + 2);
    }
    if cursor.len() > 0 {
        lemma_clause_text(cursor[0], types.len() + network.len() + publisher.len() + 2);
    }
}

/// The values of a request, condition by condition: for each one that is asked
/// for, the placeholder in its text is bound to the very thing that the request
/// holds for it. Besides these there are only the start of the window and the
/// limit.
pub proof fn law_statement_values(query: ActivityFeedQuery, now: Instant)
    ensures
        ({
            let binds = feed_binds(query, now);
            let network = 2 + counted(query.event_types@.len() > 0);
            let publisher = network + counted(query.network is Some);
            let cursor = publisher + counted(query.publisher_id is Some);
            let limit = cursor + counted(query.cursor is Some);
            &&& binds.len() == limit
            &&& binds[0] is Time
            &&& query.event_types@.len() > 0 ==> binds[1] == BindView::TextArray(
                Seq::new(query.event_types@.len(), |i: int| query.event_types@[i]@),
            )
            &&& query.network matches Some(name) ==> binds[network - 1] == BindView::Network(name@)
            &&& query.publisher_id matches Some(id) ==> binds[publisher - 1] == BindView::Id(id)
            &&& query.cursor matches Some(t) ==> binds[cursor - 1] == BindView::Time(t@)
            &&& binds[limit - 1] is BigInteger
        }),
{
    let types = event_type_filter(query);
    let network = network_filter(query);
    let publisher = publisher_filter(query);
    let cursor = cursor_filter(query);
    let all = filters(query);
    assert(texts(query.event_types@) =~= Seq::new(
        query.event_types@.len(),
        |i: int| query.event_types@[i]@,
    ));
    if types.len() > 0 {
        assert(all[0] == types[0]);
    }
    if network.len() > 0 {
        assert(all[types.len() as int] == network[0]);
    }
    if publisher.len() > 0 {
        assert(all[(types.len() + network.len()) as int] == publisher[0]);
    }
    if cursor.len() > 0 {
        assert(all[(types.len() + network.len() + publisher.len()) as int] == cursor[0]);
    }
}

/// The first value of a statement is the start of a window of as many days as
/// were asked for, but at least 1 and at most 365, and 7 where none were asked
/// for; the last is the limit asked for, but at least 1 and at most 100.
pub proof fn law_window_and_limit(query: ActivityFeedQuery, now: Instant)
    ensures
        ({
            let binds = feed_binds(query, now);
            let start = binds[0]->Time_0;
            let looked_back = (now.secs - start.secs) * 1_000_000_000 + now.nanos - start.nanos;
            &&& binds[0] is Time
            &&& 0 <= start.nanos < 1_000_000_000
            &&& query.days is None ==> looked_back == 7 * 86_400_000_000_000
            &&& query.days matches Some(d) ==> {
                &&& d < 1 ==> looked_back == 86_400_000_000_000
                &&& 1 <= d <= 365 ==> looked_back == d * 86_400_000_000_000
                &&& d > 365 ==> looked_back == 365 * 86_400_000_000_000
            }
            &&& binds.last() == BindView::BigInteger(page_limit(query.limit as int))
            &&& query.limit < 1 ==> page_limit(query.limit as int) == 1
            &&& 1 <= query.limit <= 100 ==> page_limit(query.limit as int) == query.limit
            &&& query.limit > 100 ==> page_limit(query.limit as int) == 100
        }),
{
}

/// The number of days that a request looks back, with nothing left out.
pub proof fn law_days_looked_back(days: Option<i64>)
    ensures
        days is None ==> window_days(days) == 7,
        days matches Some(d) ==> {
            &&& d < 1 ==> window_days(days) == 1
            &&& 1 <= d <= 365 ==> window_days(days) == d
            &&& d > 365 ==> window_days(days) == 365
        },
{
}

proof fn lemma_same_clauses(a: Seq<Filter>, b: Seq<Filter>)
    requires
        a.len() == b.len(),
        forall|i: int|
            #![trigger a[i]]
            0 <= i < a.len() ==> a[i].before == b[i].before && a[i].after == b[i].after,
    ensures
        clauses(a) == clauses(b),
    decreases a.len(),
{
    if a.len() > 0 {
        assert(a[a.len() - 1].before == b[b.len() - 1].before);
        assert forall|i: int| #![trigger a.drop_last()[i]] 0 <= i < a.len() - 1 implies
            a.drop_last()[i].before == b.drop_last()[i].before && a.drop_last()[i].after
            == b.drop_last()[i].after by {
            assert(a.drop_last()[i] == a[i]);
        }
        lemma_same_clauses(a.drop_last(), b.drop_last());
    }
}

/// The text of the statement depends on which conditions a request has, and on
/// nothing else: what was asked for is in the bound values alone.
pub proof fn law_text_depends_on_presence(a: ActivityFeedQuery, b: ActivityFeedQuery)
    requires
        a.event_types@.len() == 0 <==> b.event_types@.len() == 0,
        a.network is Some <==> b.network is Some,
        a.publisher_id is Some <==> b.publisher_id is Some,
        a.cursor is Some <==> b.cursor is Some,
    ensures
        feed_sql(a) == feed_sql(b),
{
    lemma_same_clauses(filters(a), filters(b));
}

/// Two requests for the same conditions, whose limits and numbers of days come
/// to the same within the bounds, get the same statement, values and limit.
pub proof fn law_same_bounds_same_plan(a: ActivityFeedQuery, b: ActivityFeedQuery, now: Instant)
    requires
        texts(a.event_types@) == texts(b.event_types@),
        match (a.network, b.network) {
            (Some(x), Some(y)) => x@ == y@,
            (None, None) => true,
            _ => false,
        },
        a.publisher_id == b.publisher_id,
        match (a.cursor, b.cursor) {
            (Some(x), Some(y)) => x@ == y@,
            (None, None) => true,
            _ => false,
        },
        page_limit(a.limit as int) == page_limit(b.limit as int),
        window_days(a.days) == window_days(b.days),
    ensures
        feed_sql(a) == feed_sql(b),
        feed_binds(a, now) == feed_binds(b, now),
{
    assert(texts(a.event_types@).len() == a.event_types@.len());
    assert(texts(b.event_types@).len() == b.event_types@.len());
    assert(event_type_filter(a) =~= event_type_filter(b));
    assert(network_filter(a) =~= network_filter(b));
    assert(publisher_filter(a) =~= publisher_filter(b));
    assert(cursor_filter(a) =~= cursor_filter(b));
}

/// The limit and the window of every request lie within their bounds, a value
/// within the bounds is taken as it is, and so are the defaults.
pub proof fn law_request_bounds(query: ActivityFeedQuery)
    ensures
        MIN_LIMIT <= page_limit(query.limit as int) <= MAX_LIMIT,
        MIN_LIMIT <= query.limit <= MAX_LIMIT ==> page_limit(query.limit as int) == query.limit,
        page_limit(DEFAULT_LIMIT as int) == DEFAULT_LIMIT,
        MIN_DAYS <= window_days(query.days) <= MAX_DAYS,
        query.days matches Some(d) ==> MIN_DAYS <= d <= MAX_DAYS ==> window_days(query.days) == d,
        query.days is None ==> window_days(query.days) == DEFAULT_DAYS,
{
}

/// The window of a request ends at the request and lasts exactly as many days
/// as it looks back.
pub proof fn law_window_length(query: ActivityFeedQuery, now: Instant)
    ensures
        now.total_nanos() - now.minus_days(window_days(query.days)).total_nanos() == window_days(
            query.days,
        ) * DAY_NANOS,
        !now.minus_days(window_days(query.days)).is_leap(),
{
}

} // verus!
