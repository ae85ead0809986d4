//! SQL statements with numbered placeholders, and the values bound to them.

use crate::clock::{Instant, Timestamp};
use crate::health::HealthStatus;
use uuid::Uuid;
use vstd::prelude::*;

verus! {

/// A value bound to a placeholder.
#[derive(Debug, PartialEq)]
pub enum BindValue {
    Id(Uuid),
    Integer(i32),
    BigInteger(i64),
    Time(Timestamp),
    OptionalTime(Option<Timestamp>),
    Status(HealthStatus),
    /// A network, by its name.
    Network(String),
    TextArray(Vec<String>),
}

/// What a `BindValue` stands for.
pub enum BindView {
    Id(Uuid),
    Integer(int),
    BigInteger(int),
    Time(Instant),
    OptionalTime(Option<Instant>),
    Status(HealthStatus),
    Network(Seq<char>),
    TextArray(Seq<Seq<char>>),
}

/// The texts of a list of strings.
pub open spec fn texts(strings: Seq<String>) -> Seq<Seq<char>> {
    strings.map_values(|s: String| s@)
}

impl View for BindValue {
    type V = BindView;

    open spec fn view(&self) -> BindView {
        match self {
            BindValue::Id(id) => BindView::Id(*id),
            BindValue::Integer(n) => BindView::Integer(*n as int),
            BindValue::BigInteger(n) => BindView::BigInteger(*n as int),
            BindValue::Time(t) => BindView::Time(t@),
            BindValue::OptionalTime(Some(t)) => BindView::OptionalTime(Some(t@)),
            BindValue::OptionalTime(None) => BindView::OptionalTime(None),
            BindValue::Status(status) => BindView::Status(*status),
            BindValue::Network(name) => BindView::Network(name@),
            BindValue::TextArray(list) => BindView::TextArray(texts(list@)),
        }
    }
}

/// A statement and the values of its placeholders: `$1` is `binds[0]`.
#[derive(Debug, PartialEq)]
pub struct Statement {
    pub sql: String,
    pub binds: Vec<BindValue>,
}

/// What a list of bound values stands for.
pub open spec fn bind_views(binds: Seq<BindValue>) -> Seq<BindView> {
    binds.map_values(|b: BindValue| b@)
}

pub open spec fn is_digit(c: char) -> bool {
    '0' <= c <= '9'
}

pub open spec fn digit_char(d: int) -> char {
    ('0' as int + d) as char
}

/// `n` in decimal, without leading zeros.
pub open spec fn decimal(n: nat) -> Seq<char>
    decreases n,
{
    if n < 10 {
        seq![digit_char(n as int)]
    } else {
        decimal(n / 10).push(digit_char((n % 10) as int))
    }
}

/// The length of the run of digits that `s` starts with.
pub open spec fn leading_digits(s: Seq<char>) -> nat
    decreases s.len(),
{
    if s.len() > 0 && is_digit(s[0]) {
        1 + leading_digits(s.skip(1))
    } else {
        0
    }
}

/// The number that a run of digits denotes.
pub open spec fn number(s: Seq<char>) -> int
    decreases s.len(),
{
    if s.len() == 0 {
        0
    } else {
        number(s.drop_last()) * 10 + (s.last() as int - '0' as int)
    }
}

/// The numbers of the placeholders of `sql`, in the order in which they stand:
/// each `$` opens one, numbered by the digits behind it.
pub open spec fn placeholders(sql: Seq<char>) -> Seq<int>
    decreases sql.len(),
{
    if sql.len() == 0 {
        seq![]
    } else {
        let rest = sql.skip(1);
        if sql[0] == '$' {
            seq![number(rest.take(leading_digits(rest) as int))] + placeholders(rest)
        } else {
            placeholders(rest)
        }
    }
}

/// `sql` numbers its placeholders 1, 2, ... up to `n`, each once and in this
/// order.
pub open spec fn numbered(sql: Seq<char>, n: nat) -> bool {
    placeholders(sql) == Seq::new(n, |i: int| i + 1)
}

pub open spec fn free_of_dollars(s: Seq<char>) -> bool {
    forall|i: int| 0 <= i < s.len() ==> s[i] != '$'
}

/// Appends one decimal digit.
fn append_digit(s: &mut String, d: u32)
    requires
        d < 10,
    ensures
        final(s)@ == old(s)@.push(digit_char(d as int)),
{
    let text = match d {
        0 => "0",
        1 => "1",
        2 => "2",
        3 => "3",
        4 => "4",
        5 => "5",
        6 => "6",
        7 => "7",
        8 => "8",
        _ => "9",
    };
    proof {
        reveal_strlit("0");
        reveal_strlit("1");
        reveal_strlit("2");
        reveal_strlit("3");
        reveal_strlit("4");
        reveal_strlit("5");
        reveal_strlit("6");
        reveal_strlit("7");
        reveal_strlit("8");
        reveal_strlit("9");
        assert(text@ =~= seq![digit_char(d as int)]);
        assert(s@ + text@ =~= s@.push(digit_char(d as int)));
    }
    s.append(text);
}

/// Appends `n` in decimal.
pub(crate) fn append_decimal(s: &mut String, n: u32)
    ensures
        final(s)@ == old(s)@ + decimal(n as nat),
    decreases n,
{
    if n >= 10 {
        append_decimal(s, n / 10);
    }
    append_digit(s, n % 10);
    proof {
        assert(s@ =~= old(s)@ + decimal(n as nat));
    }
}

/// The texts of a list of strings are those of its strings, in order.
pub proof fn law_texts(strings: Seq<String>)
    ensures
        texts(strings).len() == strings.len(),
        forall|i: int| 0 <= i < strings.len() ==> #[trigger] texts(strings)[i] == strings[i]@,
{
}

/// A bound value stands for what it holds.
pub proof fn law_bound_values(value: BindValue)
    ensures
        match value {
            BindValue::Id(id) => value@ == BindView::Id(id),
            BindValue::Integer(n) => value@ == BindView::Integer(n as int),
            BindValue::BigInteger(n) => value@ == BindView::BigInteger(n as int),
            BindValue::Time(t) => value@ == BindView::Time(t@),
            BindValue::OptionalTime(None) => value@ == BindView::OptionalTime(None),
            BindValue::OptionalTime(Some(t)) => value@ == BindView::OptionalTime(Some(t@)),
            BindValue::Status(status) => value@ == BindView::Status(status),
            BindValue::Network(name) => value@ == BindView::Network(name@),
            BindValue::TextArray(list) => value@ == BindView::TextArray(
                Seq::new(list@.len(), |i: int| list@[i]@),
            ),
        },
{
    if let BindValue::TextArray(list) = value {
        assert(texts(list@) =~= Seq::new(list@.len(), |i: int| list@[i]@));
    }
}

/// A list of bound values stands for its values, in order.
pub proof fn law_bound_value_lists(binds: Seq<BindValue>)
    ensures
        bind_views(binds).len() == binds.len(),
        forall|i: int| 0 <= i < binds.len() ==> #[trigger] bind_views(binds)[i] == binds[i]@,
{
}

/// A number below ten is written as its one digit, and any other as the number
/// of its tens and then the digit of its units.
pub proof fn law_decimal_digits(n: nat)
    ensures
        n < 10 ==> decimal(n) == seq![('0' as int + n) as char],
        n >= 10 ==> decimal(n) == decimal(n / 10).push(('0' as int + n % 10) as char),
        number(decimal(n)) == n,
{
    lemma_decimal(n);
}

proof fn lemma_leading_digits(digits: Seq<char>, rest: Seq<char>)
    requires
        forall|i: int| 0 <= i < digits.len() ==> is_digit(digits[i]),
        rest.len() == 0 || !is_digit(rest[0]),
    ensures
        leading_digits(digits + rest) == digits.len(),
    decreases digits.len(),
{
    if digits.len() == 0 {
        assert(digits + rest =~= rest);
    } else {
        assert((digits + rest).skip(1) =~= digits.skip(1) + rest);
        assert((digits + rest)[0] == digits[0]);
        lemma_leading_digits(digits.skip(1), rest);
    }
}

/// Text that does not start with a digit does not change the run of digits
/// that stands before it.
proof fn lemma_leading_digits_end(a: Seq<char>, b: Seq<char>)
    requires
        b.len() == 0 || !is_digit(b[0]),
    ensures
        leading_digits(a + b) == leading_digits(a),
        leading_digits(a) <= a.len(),
    decreases a.len(),
{
    if a.len() == 0 {
        assert(a + b =~= b);
    } else {
        assert((a + b).skip(1) =~= a.skip(1) + b);
        assert((a + b)[0] == a[0]);
        lemma_leading_digits_end(a.skip(1), b);
    }
}

/// The placeholders of two texts joined are those of the first and then those
/// of the second, unless the second starts with a digit, which could belong to
/// a number at the end of the first.
pub(crate) proof fn lemma_placeholders_join(a: Seq<char>, b: Seq<char>)
    requires
        b.len() == 0 || !is_digit(b[0]),
    ensures
        placeholders(a + b) == placeholders(a) + placeholders(b),
    decreases a.len(),
{
    if a.len() == 0 {
        assert(a + b =~= b);
        assert(placeholders(a) + placeholders(b) =~= placeholders(b));
    } else {
        let rest = a.skip(1);
        assert((a + b).skip(1) =~= rest + b);
        assert((a + b)[0] == a[0]);
        lemma_placeholders_join(rest, b);
        if a[0] == '$' {
            lemma_leading_digits_end(rest, b);
            let n = leading_digits(rest) as int;
            assert((rest + b).take(n) =~= rest.take(n));
        }
        assert(placeholders(a + b) =~= placeholders(a) + placeholders(b));
    }
}

/// Text without a `$` has no placeholder.
pub(crate) proof fn lemma_no_placeholders(s: Seq<char>)
    requires
        free_of_dollars(s),
    ensures
        placeholders(s) == Seq::<int>::empty(),
    decreases s.len(),
{
    if s.len() > 0 {
        lemma_no_placeholders(s.skip(1));
    }
}

/// A number written in decimal is read back.
pub(crate) proof fn lemma_decimal(n: nat)
    ensures
        number(decimal(n)) == n,
        forall|i: int| 0 <= i < decimal(n).len() ==> is_digit(#[trigger] decimal(n)[i]),
    decreases n,
{
    reveal_with_fuel(number, 2);
    if n < 10 {
        assert(decimal(n).drop_last() =~= seq![]);
    } else {
        lemma_decimal(n / 10);
        assert(decimal(n).drop_last() =~= decimal(n / 10));
    }
}

/// A `$` and a number make one placeholder of this number.
pub(crate) proof fn lemma_one_placeholder(n: nat)
    ensures
        placeholders(seq!['$'] + decimal(n)) == seq![n as int],
{
    let s = seq!['$'] + decimal(n);
    lemma_decimal(n);
    assert(s.skip(1) =~= decimal(n));
    lemma_leading_digits(decimal(n), seq![]);
    assert(decimal(n) + seq![] =~= decimal(n));
    assert(decimal(n).take(decimal(n).len() as int) =~= decimal(n));
    lemma_no_placeholders(decimal(n));
    assert(placeholders(s) =~= seq![n as int]);
}

/// The placeholder that comes next behind position `from`: a single digit at
/// position `at + 1`.
pub(crate) proof fn lemma_next_placeholder(s: Seq<char>, from: int, at: int, digit: nat)
    requires
        0 <= from <= at,
        at + 2 <= s.len(),
        free_of_dollars(s.subrange(from, at)),
        s[at] == '$',
        digit < 10,
        s[at + 1] == digit_char(digit as int),
        at + 2 == s.len() || !is_digit(s[at + 2]),
    ensures
        placeholders(s.skip(from)) == seq![digit as int] + placeholders(s.skip(at + 2)),
{
    let gap = s.subrange(from, at);
    let mark = seq!['$'] + decimal(digit);
    let rest = s.skip(at + 2);
    assert(s.skip(from) =~= gap + (mark + rest));
    lemma_placeholders_join(gap, mark + rest);
    lemma_no_placeholders(gap);
    lemma_placeholders_join(mark, rest);
    lemma_one_placeholder(digit);
    assert(placeholders(s.skip(from)) =~= seq![digit as int] + placeholders(rest));
}

} // verus!
