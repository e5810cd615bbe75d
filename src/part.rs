//! Reading a calendar field (the hour, or the year) out of timestamps.
use crate::calendar::{civil_from_days, civil_of, MAX_DAY_NUMBER};
use crate::trunc::{floor_div_mod, scalar_text, text_eq};
use crate::value::{
    concat, execution_err, internal_err, literal, unsupported_type, unsupported_type_message,
    ArrayData, ColumnarValue, DataFusionError, Result, ScalarValue, TimeUnit,
};
use crate::timestamp::columnar_type_name;
use vstd::prelude::*;

verus! {

/// What `str::to_lowercase` makes of a text.
pub uninterp spec fn lower_of(s: Seq<char>) -> Seq<char>;

/// Relies on std's `str::to_lowercase`: the lower-case form of each character,
/// which depends on the text alone.
#[verifier::external_body]
fn lowercase(s: &str) -> (r: String)
    ensures
        r@ == lower_of(s@),
{
    s.to_lowercase()
}

/// The calendar fields that `date_part` extracts.
#[derive(Clone, Copy, Debug, PartialEq, Eq)]
pub enum DatePart {
    Hour,
    Year,
}

pub open spec fn date_part_of(s: Seq<char>) -> Option<DatePart> {
    if s == "hour"@ {
        Some(DatePart::Hour)
    } else if s == "year"@ {
        Some(DatePart::Year)
    } else {
        None
    }
}

impl DatePart {
    /// The field that an already lower-cased name stands for.
    pub fn parse(s: &str) -> (r: Option<DatePart>)
        ensures
            r == date_part_of(s@),
    {
        proof {
            reveal_strlit("hour");
            reveal_strlit("year");
        }
        if text_eq(s, "hour") {
            Some(DatePart::Hour)
        } else if text_eq(s, "year") {
            Some(DatePart::Year)
        } else {
            None
        }
    }
}

/// Steps of the unit in one hour.
pub open spec fn per_hour(u: TimeUnit) -> int {
    match u {
        TimeUnit::Second => 3_600,
        TimeUnit::Millisecond => 3_600_000,
        TimeUnit::Microsecond => 3_600_000_000,
        TimeUnit::Nanosecond => 3_600_000_000_000,
    }
}

/// Day number of the instant `v`, counted in unit `u`.
pub open spec fn day_of(v: int, u: TimeUnit) -> int {
    v / (24 * per_hour(u))
}

/// The field of the instant `v` (counted in unit `u`), where it can be had.
pub open spec fn part_value(p: DatePart, u: TimeUnit, v: int) -> Option<i32> {
    match p {
        DatePart::Hour => Some(((v % (24 * per_hour(u))) / per_hour(u)) as i32),
        DatePart::Year => if -MAX_DAY_NUMBER <= day_of(v, u) <= MAX_DAY_NUMBER {
            Some(civil_of(day_of(v, u)).0 as i32)
        } else {
            None
        },
    }
}

/// The element is null or its field can be had.
pub open spec fn part_fits(p: DatePart, u: TimeUnit, x: Option<i64>) -> bool {
    match x {
        None => true,
        Some(v) => part_value(p, u, v as int) is Some,
    }
}

pub open spec fn part_elem(p: DatePart, u: TimeUnit, x: Option<i64>) -> Option<i32> {
    match x {
        None => None,
        Some(v) => part_value(p, u, v as int),
    }
}

pub open spec fn all_parts_fit(p: DatePart, u: TimeUnit, xs: Seq<Option<i64>>) -> bool {
    forall|i: int| 0 <= i < xs.len() ==> #[trigger] part_fits(p, u, xs[i])
}

/// The unit and value of a timestamp scalar.
pub open spec fn timestamp_scalar(a: ColumnarValue) -> Option<(TimeUnit, Option<i64>)> {
    match a {
        ColumnarValue::Scalar(ScalarValue::TimestampSecond(v, _)) => Some((TimeUnit::Second, v)),
        ColumnarValue::Scalar(ScalarValue::TimestampMillisecond(v, _)) => Some(
            (TimeUnit::Millisecond, v),
        ),
        ColumnarValue::Scalar(ScalarValue::TimestampMicrosecond(v, _)) => Some(
            (TimeUnit::Microsecond, v),
        ),
        ColumnarValue::Scalar(ScalarValue::TimestampNanosecond(v, _)) => Some(
            (TimeUnit::Nanosecond, v),
        ),
        _ => None,
    }
}

pub open spec fn part_arity_message() -> Seq<char> {
    "Expected two arguments in DATE_PART"@
}

pub open spec fn part_shape_message() -> Seq<char> {
    "First argument of `DATE_PART` must be non-null scalar Utf8"@
}

pub open spec fn part_name_message(s: Seq<char>) -> Seq<char> {
    "Date part '"@ + s + "' not supported"@
}

pub open spec fn part_range_message() -> Seq<char> {
    "date_part value is out of range"@
}

/// What `date_part` returns for its arguments.
pub open spec fn date_part_contract(args: Seq<ColumnarValue>, r: Result<ColumnarValue>) -> bool {
    if args.len() != 2 {
        execution_err(r, part_arity_message())
    } else {
        match scalar_text(args[0]) {
            None => execution_err(r, part_shape_message()),
            Some(s) => match date_part_of(lower_of(s)) {
                None => execution_err(r, part_name_message(s)),
                Some(p) => match args[1] {
                    ColumnarValue::Array(ArrayData::Timestamp(u, xs)) => {
                        &&& r is Ok <==> all_parts_fit(p, u, xs@)
                        &&& r is Err ==> execution_err(r, part_range_message())
                        &&& r matches Ok(out) ==> (out matches ColumnarValue::Array(
                            ArrayData::Int32(ys),
                        ) && ys@ == xs@.map_values(|x: Option<i64>| part_elem(p, u, x)))
                    },
                    other => match timestamp_scalar(other) {
                        Some((u, v)) => {
                            &&& r is Ok <==> part_fits(p, u, v)
                            &&& r is Err ==> execution_err(r, part_range_message())
                            &&& r is Ok ==> r == Ok::<ColumnarValue, DataFusionError>(
                                ColumnarValue::Scalar(ScalarValue::Int32(part_elem(p, u, v))),
                            )
                        },
                        None => internal_err(
                            r,
                            unsupported_type_message(columnar_type_name(other), "date_part"@),
                        ),
                    },
                },
            },
        }
    }
}

fn per_hour_exec(u: TimeUnit) -> (r: i64)
    ensures
        r == per_hour(u),
{
    match u {
        TimeUnit::Second => 3_600,
        TimeUnit::Millisecond => 3_600_000,
        TimeUnit::Microsecond => 3_600_000_000,
        TimeUnit::Nanosecond => 3_600_000_000_000,
    }
}

/// The field `p` of the instant `v`, counted in unit `u`; `None` where the
/// year lies outside the calendar's range.
pub fn extract(p: DatePart, u: TimeUnit, v: i64) -> (r: Option<i32>)
    ensures
        r == part_value(p, u, v as int),
{
    let h = per_hour_exec(u);
    let (days, rem) = floor_div_mod(v, 24 * h);
    match p {
        DatePart::Hour => {
            let hour = rem / h;
            assert(0 <= hour < 24) by (nonlinear_arith)
                requires
                    0 <= rem < 24 * h,
                    hour == rem / h,
                    h > 0,
            ;
            Some(hour as i32)
        },
        DatePart::Year => {
            if days < -MAX_DAY_NUMBER || days > MAX_DAY_NUMBER {
                None
            } else {
                let date = civil_from_days(days);
                Some(date.year)
            }
        },
    }
}

fn extract_all(p: DatePart, u: TimeUnit, xs: &Vec<Option<i64>>) -> (r: Result<Vec<Option<i32>>>)
    ensures
        r is Ok <==> all_parts_fit(p, u, xs@),
        r is Err ==> execution_err(r, part_range_message()),
        r matches Ok(ys) ==> ys@ == xs@.map_values(|x: Option<i64>| part_elem(p, u, x)),
{
    let mut out: Vec<Option<i32>> = Vec::new();
    let mut i: usize = 0;
    while i < xs.len()
        invariant
            i <= xs.len(),
            out@.len() == i,
            forall|j: int| 0 <= j < i ==> out@[j] == part_elem(p, u, xs@[j]),
            forall|j: int| 0 <= j < i ==> #[trigger] part_fits(p, u, xs@[j]),
        decreases xs.len() - i,
    {
        match xs[i] {
            None => out.push(None),
            Some(v) => match extract(p, u, v) {
                Some(w) => out.push(Some(w)),
                None => {
                    assert(!part_fits(p, u, xs@[i as int]));
                    return Err(out_of_range());
                },
            },
        }
        i += 1;
    }
    assert(out@ =~= xs@.map_values(|x: Option<i64>| part_elem(p, u, x)));
    Ok(out)
}

fn out_of_range() -> (r: DataFusionError)
    ensures
        r.is_execution(part_range_message()),
{
    proof {
        reveal_strlit("date_part value is out of range");
    }
    DataFusionError::Execution(literal("date_part value is out of range"))
}

/// `date_part(field, timestamps)`: the hour or the year of each instant, of a
/// column or of a scalar, as 32-bit integers; nulls stay null. The field's
/// name is read without regard to case.
pub fn date_part(args: &[ColumnarValue]) -> (r: Result<ColumnarValue>)
    ensures
        date_part_contract(args@, r),
{
    proof {
        reveal_strlit("Expected two arguments in DATE_PART");
        reveal_strlit("First argument of `DATE_PART` must be non-null scalar Utf8");
        reveal_strlit("Date part '");
        reveal_strlit("' not supported");
        reveal_strlit("date_part");
    }
    if args.len() != 2 {
        return Err(DataFusionError::Execution(literal("Expected two arguments in DATE_PART")));
    }
    let field = match &args[0] {
        ColumnarValue::Scalar(ScalarValue::Utf8(Some(v))) => v,
        _ => {
            return Err(
                DataFusionError::Execution(
                    literal("First argument of `DATE_PART` must be non-null scalar Utf8"),
                ),
            );
        },
    };
    let lower = lowercase(field.as_str());
    let p = match DatePart::parse(lower.as_str()) {
        Some(p) => p,
        None => {
            let a = concat("Date part '", field.as_str());
            let m = concat(a.as_str(), "' not supported");
            return Err(DataFusionError::Execution(m));
        },
    };
    let (u, v) = match &args[1] {
        ColumnarValue::Array(ArrayData::Timestamp(u, xs)) => {
            let ys = extract_all(p, *u, xs)?;
            return Ok(ColumnarValue::Array(ArrayData::Int32(ys)));
        },
        ColumnarValue::Scalar(ScalarValue::TimestampSecond(v, _)) => (TimeUnit::Second, v),
        ColumnarValue::Scalar(ScalarValue::TimestampMillisecond(v, _)) => (TimeUnit::Millisecond, v),
        ColumnarValue::Scalar(ScalarValue::TimestampMicrosecond(v, _)) => (TimeUnit::Microsecond, v),
        ColumnarValue::Scalar(ScalarValue::TimestampNanosecond(v, _)) => (TimeUnit::Nanosecond, v),
        ColumnarValue::Array(a) => {
            let t = a.data_type_name();
            return Err(unsupported_type(t.as_str(), "date_part"));
        },
        ColumnarValue::Scalar(sv) => {
            let t = sv.data_type_name();
            return Err(unsupported_type(t.as_str(), "date_part"));
        },
    };
    let w = match v {
        None => None,
        Some(x) => match extract(p, u, *x) {
            Some(y) => Some(y),
            None => {
                return Err(out_of_range());
            },
        },
    };
    Ok(ColumnarValue::Scalar(ScalarValue::Int32(w)))
}

} // verus!
