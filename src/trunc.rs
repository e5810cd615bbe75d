//! Moving timestamps down to the start of a second, minute, hour, day, week
//! (weeks start on Monday), month or year.
use crate::calendar::{
    civil_from_days, civil_of, days_before_month, days_before_year, days_from_civil,
    days_in_month, days_in_year, first_of_month, is_valid_date, lemma_civil_of,
    lemma_civil_order, lemma_date_in_year, lemma_month_monotone, lemma_year_length,
    lemma_year_monotone, lemma_year_step, weekday_of, MAX_DAY_NUMBER,
};
use crate::timestamp::columnar_type_name;
use crate::value::{
    concat, execution_err, internal_err, literal, unsupported_type, unsupported_type_message,
    ArrayData, ColumnarValue, DataFusionError, Result, ScalarValue, TimeUnit,
};
use vstd::arithmetic::div_mod::{
    lemma_div_is_ordered, lemma_div_multiples_vanish, lemma_fundamental_div_mod,
    lemma_fundamental_div_mod_converse, lemma_mod_multiples_basic, lemma_mod_pos_bound,
};
use vstd::prelude::*;
use vstd::string::*;

verus! {

pub const NANOS_PER_SECOND: i64 = 1_000_000_000;

pub const NANOS_PER_MINUTE: i64 = 60_000_000_000;

pub const NANOS_PER_HOUR: i64 = 3_600_000_000_000;

pub const NANOS_PER_DAY: i64 = 86_400_000_000_000;

/// The calendar buckets that `date_trunc` knows.
#[derive(Clone, Copy, Debug, PartialEq, Eq)]
pub enum Granularity {
    Second,
    Minute,
    Hour,
    Day,
    Week,
    Month,
    Year,
}

pub open spec fn granularity_of(s: Seq<char>) -> Option<Granularity> {
    if s == "second"@ {
        Some(Granularity::Second)
    } else if s == "minute"@ {
        Some(Granularity::Minute)
    } else if s == "hour"@ {
        Some(Granularity::Hour)
    } else if s == "day"@ {
        Some(Granularity::Day)
    } else if s == "week"@ {
        Some(Granularity::Week)
    } else if s == "month"@ {
        Some(Granularity::Month)
    } else if s == "year"@ {
        Some(Granularity::Year)
    } else {
        None
    }
}

/// `t` moved down to a multiple of `u`.
pub open spec fn floor_to(t: int, u: int) -> int {
    t - t % u
}

/// Start, in nanoseconds, of the bucket of granularity `g` that holds the instant `t`.
pub open spec fn trunc_nanos(g: Granularity, t: int) -> int {
    let days = t / (NANOS_PER_DAY as int);
    match g {
        Granularity::Second => floor_to(t, NANOS_PER_SECOND as int),
        Granularity::Minute => floor_to(t, NANOS_PER_MINUTE as int),
        Granularity::Hour => floor_to(t, NANOS_PER_HOUR as int),
        Granularity::Day => floor_to(t, NANOS_PER_DAY as int),
        Granularity::Week => (days - weekday_of(days)) * NANOS_PER_DAY,
        Granularity::Month => days_from_civil(civil_of(days).0, civil_of(days).1, 1)
            * NANOS_PER_DAY,
        Granularity::Year => days_from_civil(civil_of(days).0, 1, 1) * NANOS_PER_DAY,
    }
}

pub open spec fn granularity_message(s: Seq<char>) -> Seq<char> {
    "Unsupported date_trunc granularity: "@ + s
}

pub open spec fn out_of_range_message() -> Seq<char> {
    "date_trunc result is out of range"@
}

/// Whether two texts are equal, character by character.
pub fn text_eq(a: &str, b: &str) -> (r: bool)
    ensures
        r == (a@ == b@),
{
    let n = a.unicode_len();
    if n != b.unicode_len() {
        return false;
    }
    let mut i: usize = 0;
    while i < n
        invariant
            n == a@.len(),
            n == b@.len(),
            i <= n,
            forall|j: int| 0 <= j < i ==> a@[j] == b@[j],
        decreases n - i,
    {
        if a.get_char(i) != b.get_char(i) {
            return false;
        }
        i += 1;
    }
    assert(a@ =~= b@);
    true
}

impl Granularity {
    /// The granularity that a name stands for.
    pub fn parse(s: &str) -> (r: Option<Granularity>)
        ensures
            r == granularity_of(s@),
    {
        proof {
            reveal_strlit("second");
            reveal_strlit("minute");
            reveal_strlit("hour");
            reveal_strlit("day");
            reveal_strlit("week");
            reveal_strlit("month");
            reveal_strlit("year");
        }
        if text_eq(s, "second") {
            Some(Granularity::Second)
        } else if text_eq(s, "minute") {
            Some(Granularity::Minute)
        } else if text_eq(s, "hour") {
            Some(Granularity::Hour)
        } else if text_eq(s, "day") {
            Some(Granularity::Day)
        } else if text_eq(s, "week") {
            Some(Granularity::Week)
        } else if text_eq(s, "month") {
            Some(Granularity::Month)
        } else if text_eq(s, "year") {
            Some(Granularity::Year)
        } else {
            None
        }
    }
}

/// Quotient and remainder of `t` by `u`, rounding down.
pub fn floor_div_mod(t: i64, u: i64) -> (r: (i64, i64))
    requires
        u > 0,
    ensures
        r.0 == t / u,
        r.1 == t % u,
{
    let q = t / u;
    let m = t % u;
    proof {
        let (tt, uu) = (t as int, u as int);
        lemma_fundamental_div_mod(tt, uu);
        lemma_fundamental_div_mod(-tt, uu);
        if tt < 0 {
            lemma_mod_pos_bound(-tt, uu);
            assert(q == -((-tt) / uu) && m == -((-tt) % uu));
            assert(tt == q * uu + m) by (nonlinear_arith)
                requires
                    q == -((-tt) / uu),
                    m == -((-tt) % uu),
                    -tt == uu * ((-tt) / uu) + (-tt) % uu,
            ;
        } else {
            lemma_mod_pos_bound(tt, uu);
            assert(q == tt / uu && m == tt % uu);
            assert(tt == q * uu + m) by (nonlinear_arith)
                requires
                    tt == uu * q + m,
            ;
        }
        assert(tt == q * uu + m && -uu < m < uu);
    }
    if m < 0 {
        proof {
            let (tt, uu) = (t as int, u as int);
            assert(tt == (q - 1) * uu + (m + uu) && q > i64::MIN) by (nonlinear_arith)
                requires
                    tt == q * uu + m,
                    m < 0,
                    -uu < m,
                    tt >= i64::MIN,
            ;
            lemma_fundamental_div_mod_converse(t as int, u as int, q - 1, m + u);
        }
        (q - 1, m + u)
    } else {
        proof {
            lemma_fundamental_div_mod_converse(t as int, u as int, q as int, m as int);
        }
        (q, m)
    }
}

/// `t` moved down to a multiple of `u`, if that fits in an `i64`.
fn floor_to_unit(t: i64, u: i64) -> (r: Option<i64>)
    requires
        u > 0,
    ensures
        r is Some <==> i64::MIN <= floor_to(t as int, u as int),
        r matches Some(v) ==> v == floor_to(t as int, u as int),
{
    let (_, m) = floor_div_mod(t, u);
    t.checked_sub(m)
}

/// A day number as the nanosecond instant of its midnight, if that fits in an `i64`.
fn day_start(days: i64) -> (r: Option<i64>)
    ensures
        r is Some <==> i64::MIN <= days * NANOS_PER_DAY <= i64::MAX,
        r matches Some(v) ==> v == days * NANOS_PER_DAY,
{
    days.checked_mul(NANOS_PER_DAY)
}

/// The start of the bucket of granularity `g` that holds `value`, or `None`
/// where that start lies before the earliest `i64` instant.
pub fn truncate(g: Granularity, value: i64) -> (r: Option<i64>)
    ensures
        r is Some <==> i64::MIN <= trunc_nanos(g, value as int),
        r matches Some(v) ==> v == trunc_nanos(g, value as int),
{
    proof {
        lemma_trunc_le(g, value as int);
    }
    match g {
        Granularity::Second => floor_to_unit(value, NANOS_PER_SECOND),
        Granularity::Minute => floor_to_unit(value, NANOS_PER_MINUTE),
        Granularity::Hour => floor_to_unit(value, NANOS_PER_HOUR),
        Granularity::Day => floor_to_unit(value, NANOS_PER_DAY),
        _ => {
            let (days, _) = floor_div_mod(value, NANOS_PER_DAY);
            assert(-MAX_DAY_NUMBER <= days <= MAX_DAY_NUMBER) by (nonlinear_arith)
                requires
                    days == value / NANOS_PER_DAY,
            {
                lemma_div_is_ordered(i64::MIN as int, value as int, NANOS_PER_DAY as int);
                lemma_div_is_ordered(value as int, i64::MAX as int, NANOS_PER_DAY as int);
            }
            let date = civil_from_days(days);
            match g {
                Granularity::Week => day_start(days - date.weekday as i64),
                Granularity::Month => day_start(first_of_month(date.year, date.month)),
                _ => day_start(first_of_month(date.year, 1)),
            }
        },
    }
}

/// `date_trunc` on one instant: the start of the named bucket that holds `value`.
pub fn date_trunc_single(granularity: &str, value: i64) -> (r: Result<i64>)
    ensures
        granularity_of(granularity@) is None ==> execution_err(r, granularity_message(granularity@)),
        granularity_of(granularity@) matches Some(g) ==> (r is Ok <==> i64::MIN <= trunc_nanos(
            g,
            value as int,
        )),
        granularity_of(granularity@) matches Some(g) ==> (r matches Ok(v) ==> v == trunc_nanos(
            g,
            value as int,
        )),
        granularity_of(granularity@) is Some && r is Err ==> internal_err(r, out_of_range_message()),
{
    match Granularity::parse(granularity) {
        None => Err(unsupported_granularity(granularity)),
        Some(g) => match truncate(g, value) {
            Some(v) => Ok(v),
            None => Err(out_of_range()),
        },
    }
}

pub fn unsupported_granularity(granularity: &str) -> (r: DataFusionError)
    ensures
        r.is_execution(granularity_message(granularity@)),
{
    proof {
        reveal_strlit("Unsupported date_trunc granularity: ");
    }
    DataFusionError::Execution(concat("Unsupported date_trunc granularity: ", granularity))
}

pub fn out_of_range() -> (r: DataFusionError)
    ensures
        r.is_internal(out_of_range_message()),
{
    proof {
        reveal_strlit("date_trunc result is out of range");
    }
    DataFusionError::Internal(literal("date_trunc result is out of range"))
}

/// What one nullable instant becomes: null stays null.
pub open spec fn trunc_elem(g: Granularity, x: Option<i64>) -> Option<i64> {
    match x {
        None => None,
        Some(v) => Some(trunc_nanos(g, v as int) as i64),
    }
}

/// The element is null, or its truncation fits in an `i64`.
pub open spec fn trunc_fits(g: Granularity, x: Option<i64>) -> bool {
    match x {
        None => true,
        Some(v) => i64::MIN <= trunc_nanos(g, v as int),
    }
}

pub open spec fn all_fit(g: Granularity, xs: Seq<Option<i64>>) -> bool {
    forall|i: int| 0 <= i < xs.len() ==> #[trigger] trunc_fits(g, xs[i])
}

/// The text of a non-null scalar text argument.
pub open spec fn scalar_text(a: ColumnarValue) -> Option<Seq<char>> {
    match a {
        ColumnarValue::Scalar(ScalarValue::Utf8(Some(s))) => Some(s@),
        _ => None,
    }
}

pub open spec fn trunc_arity_message() -> Seq<char> {
    "Expected two arguments in DATE_TRUNC"@
}

pub open spec fn granularity_shape_message() -> Seq<char> {
    "Granularity of `date_trunc` must be non-null scalar Utf8"@
}

/// The nanosecond instants of a column that `date_trunc` reads.
pub open spec fn nanos_column(a: ColumnarValue) -> Option<Seq<Option<i64>>> {
    match a {
        ColumnarValue::Array(ArrayData::Int64(xs)) => Some(xs@),
        ColumnarValue::Array(ArrayData::Timestamp(TimeUnit::Nanosecond, xs)) => Some(xs@),
        _ => None,
    }
}

/// What `date_trunc` returns for its arguments.
pub open spec fn date_trunc_contract(args: Seq<ColumnarValue>, r: Result<ColumnarValue>) -> bool {
    if args.len() != 2 {
        execution_err(r, trunc_arity_message())
    } else {
        match scalar_text(args[0]) {
            None => execution_err(r, granularity_shape_message()),
            Some(s) => match granularity_of(s) {
                None => execution_err(r, granularity_message(s)),
                Some(g) => match args[1] {
                    ColumnarValue::Scalar(ScalarValue::TimestampNanosecond(v, tz)) => {
                        &&& r is Ok <==> trunc_fits(g, v)
                        &&& r is Err ==> internal_err(r, out_of_range_message())
                        &&& r is Ok ==> r == Ok::<ColumnarValue, DataFusionError>(
                            ColumnarValue::Scalar(
                                ScalarValue::TimestampNanosecond(trunc_elem(g, v), tz),
                            ),
                        )
                    },
                    other => match nanos_column(other) {
                        Some(xs) => {
                            &&& r is Ok <==> all_fit(g, xs)
                            &&& r is Err ==> internal_err(r, out_of_range_message())
                            &&& r matches Ok(out) ==> (out matches ColumnarValue::Array(
                                ArrayData::Timestamp(u, ys),
                            ) && u == TimeUnit::Nanosecond && ys@ == xs.map_values(
                                |x: Option<i64>| trunc_elem(g, x),
                            ))
                        },
                        None => internal_err(
                            r,
                            unsupported_type_message(columnar_type_name(other), "date_trunc"@),
                        ),
                    },
                },
            },
        }
    }
}

fn truncate_all(g: Granularity, xs: &Vec<Option<i64>>) -> (r: Result<Vec<Option<i64>>>)
    ensures
        r is Ok <==> all_fit(g, xs@),
        r is Err ==> internal_err(r, out_of_range_message()),
        r matches Ok(ys) ==> ys@ == xs@.map_values(|x: Option<i64>| trunc_elem(g, x)),
{
    let mut out: Vec<Option<i64>> = Vec::new();
    let mut i: usize = 0;
    while i < xs.len()
        invariant
            i <= xs.len(),
            out@.len() == i,
            forall|j: int| 0 <= j < i ==> out@[j] == trunc_elem(g, xs@[j]),
            forall|j: int| 0 <= j < i ==> #[trigger] trunc_fits(g, xs@[j]),
        decreases xs.len() - i,
    {
        match xs[i] {
            None => out.push(None),
            Some(v) => match truncate(g, v) {
                Some(w) => out.push(Some(w)),
                None => {
                    assert(!trunc_fits(g, xs@[i as int]));
                    return Err(out_of_range());
                },
            },
        }
        i += 1;
    }
    assert(out@ =~= xs@.map_values(|x: Option<i64>| trunc_elem(g, x)));
    Ok(out)
}

/// `date_trunc(granularity, timestamps)`: moves each nanosecond instant, of a
/// column or of a scalar, down to the start of its bucket; nulls stay null and
/// a scalar keeps its time zone.
pub fn date_trunc(args: &[ColumnarValue]) -> (r: Result<ColumnarValue>)
    ensures
        date_trunc_contract(args@, r),
{
    proof {
        reveal_strlit("Expected two arguments in DATE_TRUNC");
        reveal_strlit("Granularity of `date_trunc` must be non-null scalar Utf8");
        reveal_strlit("date_trunc");
    }
    if args.len() != 2 {
        return Err(DataFusionError::Execution(literal("Expected two arguments in DATE_TRUNC")));
    }
    let granularity = match &args[0] {
        ColumnarValue::Scalar(ScalarValue::Utf8(Some(v))) => v,
        _ => {
            return Err(
                DataFusionError::Execution(
                    literal("Granularity of `date_trunc` must be non-null scalar Utf8"),
                ),
            );
        },
    };
    let g = match Granularity::parse(granularity.as_str()) {
        Some(g) => g,
        None => {
            return Err(unsupported_granularity(granularity.as_str()));
        },
    };
    match &args[1] {
        ColumnarValue::Scalar(ScalarValue::TimestampNanosecond(v, tz)) => {
            let w = match v {
                None => None,
                Some(x) => match truncate(g, *x) {
                    Some(y) => Some(y),
                    None => {
                        return Err(out_of_range());
                    },
                },
            };
            Ok(ColumnarValue::Scalar(ScalarValue::TimestampNanosecond(w, tz.clone())))
        },
        ColumnarValue::Array(ArrayData::Int64(xs)) | ColumnarValue::Array(
            ArrayData::Timestamp(TimeUnit::Nanosecond, xs),
        ) => {
            let ys = truncate_all(g, xs)?;
            Ok(ColumnarValue::Array(ArrayData::Timestamp(TimeUnit::Nanosecond, ys)))
        },
        ColumnarValue::Array(a) => {
            let t = a.data_type_name();
            Err(unsupported_type(t.as_str(), "date_trunc"))
        },
        ColumnarValue::Scalar(sv) => {
            let t = sv.data_type_name();
            Err(unsupported_type(t.as_str(), "date_trunc"))
        },
    }
}

proof fn lemma_floor_to(t: int, u: int)
    requires
        u > 0,
    ensures
        floor_to(t, u) == u * (t / u),
        floor_to(t, u) <= t,
        floor_to(t, u) % u == 0,
        floor_to(t, u) / u == t / u,
{
    lemma_fundamental_div_mod(t, u);
    lemma_mod_multiples_basic(t / u, u);
    assert((t / u) * u == u * (t / u)) by (nonlinear_arith);
    lemma_div_multiples_vanish(t / u, u);
}

/// Every day number is the day number of some valid date.
pub proof fn lemma_civil_of_valid(days: int)
    ensures
        is_valid_date(civil_of(days).0, civil_of(days).1, civil_of(days).2),
        days_from_civil(civil_of(days).0, civil_of(days).1, civil_of(days).2) == days,
{
    let y = lemma_find_year(days, 1970);
    lemma_year_step(y);
    let m = lemma_find_month(y, days - days_before_year(y), 1);
    let d = days - days_before_year(y) - days_before_month(y, m) + 1;
    let w = (y, m, d);
    assert(is_valid_date(w.0, w.1, w.2) && days_from_civil(w.0, w.1, w.2) == days);
}

proof fn lemma_find_year(days: int, y: int) -> (r: int)
    ensures
        days_before_year(r) <= days < days_before_year(r) + days_in_year(r),
    decreases (if days >= days_before_year(y) {
        days - days_before_year(y)
    } else {
        days_before_year(y) - days
    }),
{
    lemma_year_step(y);
    lemma_year_step(y - 1);
    if days < days_before_year(y) {
        if days >= days_before_year(y - 1) {
            y - 1
        } else {
            lemma_find_year(days, y - 1)
        }
    } else if days >= days_before_year(y) + days_in_year(y) {
        lemma_find_year(days, y + 1)
    } else {
        y
    }
}

proof fn lemma_find_month(y: int, r: int, m: int) -> (res: int)
    requires
        1 <= m <= 12,
        days_before_month(y, m) <= r < days_in_year(y),
    ensures
        1 <= res <= 12,
        days_before_month(y, res) <= r < days_before_month(y, res) + days_in_month(y, res),
    decreases 12 - m,
{
    if r < days_before_month(y, m) + days_in_month(y, m) {
        m
    } else {
        if m == 12 {
            lemma_year_length(y);
        }
        lemma_find_month(y, r, m + 1)
    }
}

/// Truncation never moves an instant forward.
pub proof fn lemma_trunc_le(g: Granularity, t: int)
    ensures
        trunc_nanos(g, t) <= t,
{
    let days = t / (NANOS_PER_DAY as int);
    lemma_floor_to(t, NANOS_PER_SECOND as int);
    lemma_floor_to(t, NANOS_PER_MINUTE as int);
    lemma_floor_to(t, NANOS_PER_HOUR as int);
    lemma_floor_to(t, NANOS_PER_DAY as int);
    lemma_civil_of_valid(days);
    let c = civil_of(days);
    let start = match g {
        Granularity::Week => days - weekday_of(days),
        Granularity::Month => days_from_civil(c.0, c.1, 1),
        _ => days_from_civil(c.0, 1, 1),
    };
    if g is Week || g is Month || g is Year {
        if g is Year && c.1 > 1 {
            lemma_month_monotone(c.0, 1, c.1);
        }
        assert(start <= days);
        assert(start * NANOS_PER_DAY <= days * NANOS_PER_DAY) by (nonlinear_arith)
            requires
                start <= days,
        ;
    }
}

proof fn lemma_day_start(s: int)
    ensures
        (s * NANOS_PER_DAY) / (NANOS_PER_DAY as int) == s,
{
    assert(s * NANOS_PER_DAY == (NANOS_PER_DAY as int) * s) by (nonlinear_arith);
    lemma_div_multiples_vanish(s, NANOS_PER_DAY as int);
}

/// Monday on or before a day number: three days before a multiple of seven.
proof fn lemma_week_start(days: int)
    ensures
        days - weekday_of(days) == 7 * ((days + 3) / 7) - 3,
        weekday_of(days - weekday_of(days)) == 0,
{
    lemma_fundamental_div_mod(days + 3, 7);
    lemma_mod_multiples_basic((days + 3) / 7, 7);
    assert(7 * ((days + 3) / 7) == ((days + 3) / 7) * 7) by (nonlinear_arith);
}

/// The first of a month comes no later than the first of any later month.
proof fn lemma_first_of_month_order(y1: int, m1: int, y2: int, m2: int)
    requires
        1 <= m1 <= 12,
        1 <= m2 <= 12,
        y1 < y2 || (y1 == y2 && m1 <= m2),
    ensures
        days_from_civil(y1, m1, 1) <= days_from_civil(y2, m2, 1),
{
    if y1 < y2 {
        lemma_date_in_year(y1, m1, 1);
        lemma_date_in_year(y2, m2, 1);
        lemma_year_monotone(y1, y2);
    } else if m1 < m2 {
        lemma_month_monotone(y1, m1, m2);
    }
}

/// Truncating an instant that is already truncated to a granularity leaves it
/// where it is: `date_trunc(g, date_trunc(g, t)) == date_trunc(g, t)`.
pub proof fn lemma_date_trunc_idempotent(g: Granularity, t: int)
    ensures
        trunc_nanos(g, trunc_nanos(g, t)) == trunc_nanos(g, t),
{
    let days = t / (NANOS_PER_DAY as int);
    lemma_civil_of_valid(days);
    let c = civil_of(days);
    match g {
        Granularity::Second => lemma_floor_to(t, NANOS_PER_SECOND as int),
        Granularity::Minute => lemma_floor_to(t, NANOS_PER_MINUTE as int),
        Granularity::Hour => lemma_floor_to(t, NANOS_PER_HOUR as int),
        Granularity::Day => lemma_floor_to(t, NANOS_PER_DAY as int),
        Granularity::Week => {
            let w = days - weekday_of(days);
            lemma_week_start(days);
            lemma_day_start(w);
        },
        Granularity::Month => {
            let s = days_from_civil(c.0, c.1, 1);
            lemma_day_start(s);
            lemma_civil_of(c.0, c.1, 1);
        },
        Granularity::Year => {
            let s = days_from_civil(c.0, 1, 1);
            lemma_day_start(s);
            lemma_civil_of(c.0, 1, 1);
        },
    }
}

/// Truncation keeps the order of instants:
/// `t1 <= t2` implies `date_trunc(g, t1) <= date_trunc(g, t2)`.
pub proof fn lemma_date_trunc_monotone(g: Granularity, t1: int, t2: int)
    requires
        t1 <= t2,
    ensures
        trunc_nanos(g, t1) <= trunc_nanos(g, t2),
{
    let dn = NANOS_PER_DAY as int;
    let (d1, d2) = (t1 / dn, t2 / dn);
    lemma_div_is_ordered(t1, t2, dn);
    match g {
        Granularity::Week => {
            lemma_week_start(d1);
            lemma_week_start(d2);
            lemma_div_is_ordered(d1 + 3, d2 + 3, 7);
            let (w1, w2) = (d1 - weekday_of(d1), d2 - weekday_of(d2));
            assert(w1 * dn <= w2 * dn) by (nonlinear_arith)
                requires
                    w1 <= w2,
                    dn > 0,
            ;
        },
        Granularity::Month | Granularity::Year => {
            lemma_civil_of_valid(d1);
            lemma_civil_of_valid(d2);
            let (c1, c2) = (civil_of(d1), civil_of(d2));
            lemma_civil_order(c1.0, c1.1, c1.2, c2.0, c2.1, c2.2);
            let (s1, s2) = if g is Month {
                lemma_first_of_month_order(c1.0, c1.1, c2.0, c2.1);
                (days_from_civil(c1.0, c1.1, 1), days_from_civil(c2.0, c2.1, 1))
            } else {
                lemma_first_of_month_order(c1.0, 1, c2.0, 1);
                (days_from_civil(c1.0, 1, 1), days_from_civil(c2.0, 1, 1))
            };
            assert(s1 * dn <= s2 * dn) by (nonlinear_arith)
                requires
                    s1 <= s2,
                    dn > 0,
            ;
        },
        _ => {
            let u = match g {
                Granularity::Second => NANOS_PER_SECOND as int,
                Granularity::Minute => NANOS_PER_MINUTE as int,
                Granularity::Hour => NANOS_PER_HOUR as int,
                _ => dn,
            };
            lemma_floor_to(t1, u);
            lemma_floor_to(t2, u);
            lemma_div_is_ordered(t1, t2, u);
            assert(u * (t1 / u) <= u * (t2 / u)) by (nonlinear_arith)
                requires
                    t1 / u <= t2 / u,
                    u > 0,
            ;
        },
    }
}

} // verus!
