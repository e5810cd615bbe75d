//! Parsing text columns and scalars into timestamps of a chosen precision,
//! and the fixed instant that `now()` returns.
use crate::value::{
    arg_count, arg_count_message, internal_err, literal, unsupported_type, unsupported_type_message,
    ArrayData, ColumnarValue, DataFusionError, Result, ScalarValue, TimeUnit,
};
use vstd::prelude::*;

verus! {

/// Nanoseconds since 1970-01-01T00:00:00Z that arrow reads from a text, if it reads one.
pub uninterp spec fn parsed_nanos(s: Seq<char>) -> Option<i64>;

/// Relies on arrow's `string_to_timestamp_nanos` (text in UTC, with or without
/// an offset, to nanoseconds since the epoch): succeeds exactly when the named
/// result is `Some`, and then returns it.
#[verifier::external_body]
fn string_to_timestamp_nanos(s: &str) -> (r: Result<i64>)
    ensures
        r matches Ok(n) ==> parsed_nanos(s@) == Some(n),
        r is Err ==> parsed_nanos(s@) is None,
        r is Err ==> r->Err_0 is ArrowError,
{
    match arrow::compute::kernels::cast_utils::string_to_timestamp_nanos(s) {
        Ok(n) => Ok(n),
        Err(e) => Err(DataFusionError::ArrowError(e.to_string())),
    }
}

/// Division rounding toward zero, as Rust's `/` on integers.
pub open spec fn trunc_div(n: int, d: int) -> int {
    if n >= 0 { n / d } else { -((-n) / d) }
}

/// Nanoseconds in one step of the unit.
pub open spec fn divisor(u: TimeUnit) -> int {
    match u {
        TimeUnit::Second => 1_000_000_000,
        TimeUnit::Millisecond => 1_000_000,
        TimeUnit::Microsecond => 1_000,
        TimeUnit::Nanosecond => 1,
    }
}

/// The timestamp, in unit `u`, that a text stands for.
pub open spec fn timestamp_of(s: Seq<char>, u: TimeUnit) -> Option<i64> {
    match parsed_nanos(s) {
        None => None,
        Some(n) => Some(trunc_div(n as int, divisor(u)) as i64),
    }
}

/// What a nullable text element becomes: null stays null.
pub open spec fn convert_elem(x: Option<String>, u: TimeUnit) -> Option<i64> {
    match x {
        None => None,
        Some(s) => timestamp_of(s@, u),
    }
}

/// The element is null or can be parsed.
pub open spec fn elem_parses(x: Option<String>, u: TimeUnit) -> bool {
    match x {
        None => true,
        Some(s) => parsed_nanos(s@) is Some,
    }
}

pub open spec fn all_parse(xs: Seq<Option<String>>, u: TimeUnit) -> bool {
    forall|i: int| 0 <= i < xs.len() ==> #[trigger] elem_parses(xs[i], u)
}

pub open spec fn is_text(arg: ColumnarValue) -> bool {
    match arg {
        ColumnarValue::Array(ArrayData::Utf8(_)) => true,
        ColumnarValue::Array(ArrayData::LargeUtf8(_)) => true,
        ColumnarValue::Scalar(ScalarValue::Utf8(_)) => true,
        ColumnarValue::Scalar(ScalarValue::LargeUtf8(_)) => true,
        _ => false,
    }
}

pub open spec fn columnar_type_name(arg: ColumnarValue) -> Seq<char> {
    match arg {
        ColumnarValue::Array(a) => a.data_type_name_spec(),
        ColumnarValue::Scalar(s) => s.data_type_name_spec(),
    }
}

/// A text argument can be read in full.
pub open spec fn text_parses(arg: ColumnarValue, u: TimeUnit) -> bool {
    match arg {
        ColumnarValue::Array(ArrayData::Utf8(xs)) => all_parse(xs@, u),
        ColumnarValue::Array(ArrayData::LargeUtf8(xs)) => all_parse(xs@, u),
        ColumnarValue::Scalar(ScalarValue::Utf8(x)) => elem_parses(x, u),
        ColumnarValue::Scalar(ScalarValue::LargeUtf8(x)) => elem_parses(x, u),
        _ => false,
    }
}

/// `out` holds, element by element, the timestamps in unit `u` of the text argument.
pub open spec fn parsed_column(xs: Seq<Option<String>>, u: TimeUnit, out: ColumnarValue) -> bool {
    out matches ColumnarValue::Array(ArrayData::Timestamp(w, ys)) && w == u && ys@ == xs.map_values(
        |x: Option<String>| convert_elem(x, u),
    )
}

pub open spec fn parsed_value(arg: ColumnarValue, u: TimeUnit, out: ColumnarValue) -> bool {
    match arg {
        ColumnarValue::Array(ArrayData::Utf8(xs)) => parsed_column(xs@, u, out),
        ColumnarValue::Array(ArrayData::LargeUtf8(xs)) => parsed_column(xs@, u, out),
        ColumnarValue::Scalar(ScalarValue::Utf8(x)) => out == ColumnarValue::Scalar(
            ScalarValue::timestamp_spec(u, convert_elem(x, u)),
        ),
        ColumnarValue::Scalar(ScalarValue::LargeUtf8(x)) => out == ColumnarValue::Scalar(
            ScalarValue::timestamp_spec(u, convert_elem(x, u)),
        ),
        _ => false,
    }
}

/// The contract shared by the four parsing functions.
pub open spec fn parse_contract(
    args: Seq<ColumnarValue>,
    u: TimeUnit,
    name: Seq<char>,
    r: Result<ColumnarValue>,
) -> bool {
    &&& args.len() != 1 ==> internal_err(r, arg_count_message(args.len(), name))
    &&& args.len() == 1 && !is_text(args[0]) ==> internal_err(
        r,
        unsupported_type_message(columnar_type_name(args[0]), name),
    )
    &&& args.len() == 1 && is_text(args[0]) ==> (r is Ok <==> text_parses(args[0], u))
    &&& args.len() == 1 && is_text(args[0]) && r is Err ==> r->Err_0 is ArrowError
    &&& args.len() == 1 && is_text(args[0]) ==> (r matches Ok(out) ==> parsed_value(
        args[0],
        u,
        out,
    ))
}

/// Parses one text into a timestamp of unit `u`, dividing the nanoseconds
/// toward zero.
pub fn parse_in_unit(s: &str, u: TimeUnit) -> (r: Result<i64>)
    ensures
        r is Ok <==> parsed_nanos(s@) is Some,
        r matches Ok(v) ==> timestamp_of(s@, u) == Some(v),
        r is Err ==> r->Err_0 is ArrowError,
{
    let n = string_to_timestamp_nanos(s)?;
    let v = match u {
        TimeUnit::Second => n / 1_000_000_000,
        TimeUnit::Millisecond => n / 1_000_000,
        TimeUnit::Microsecond => n / 1_000,
        TimeUnit::Nanosecond => n,
    };
    Ok(v)
}

fn convert_texts(xs: &Vec<Option<String>>, u: TimeUnit) -> (r: Result<Vec<Option<i64>>>)
    ensures
        r is Ok <==> all_parse(xs@, u),
        r is Err ==> r->Err_0 is ArrowError,
        r matches Ok(ys) ==> ys@ == xs@.map_values(|x: Option<String>| convert_elem(x, u)),
{
    let mut out: Vec<Option<i64>> = Vec::new();
    let mut i: usize = 0;
    while i < xs.len()
        invariant
            i <= xs.len(),
            out@.len() == i,
            forall|j: int| 0 <= j < i ==> out@[j] == convert_elem(xs@[j], u),
            forall|j: int| 0 <= j < i ==> #[trigger] elem_parses(xs@[j], u),
        decreases xs.len() - i,
    {
        match &xs[i] {
            None => out.push(None),
            Some(s) => {
                let r = parse_in_unit(s.as_str(), u);
                match r {
                    Ok(v) => out.push(Some(v)),
                    Err(e) => {
                        assert(!elem_parses(xs@[i as int], u));
                        return Err(e);
                    },
                }
            },
        }
        i += 1;
    }
    assert(out@ =~= xs@.map_values(|x: Option<String>| convert_elem(x, u)));
    Ok(out)
}

/// Applies the parser of unit `u` to each element of the one text column in
/// `args`; nulls stay null, and the first element that cannot be parsed fails
/// the whole call.
pub fn unary_string_to_primitive_function(args: &[ArrayData], u: TimeUnit, name: &str) -> (r:
    Result<Vec<Option<i64>>>)
    ensures
        args@.len() != 1 ==> internal_err(r, arg_count_message(args@.len(), name@)),
        args@.len() == 1 && !(args@[0] is Utf8 || args@[0] is LargeUtf8) ==> internal_err(
            r,
            "failed to downcast to string"@,
        ),
        args@.len() == 1 ==> match args@[0] {
            ArrayData::Utf8(xs) => (r is Ok <==> all_parse(xs@, u)) && (r matches Ok(ys) ==> ys@
                == xs@.map_values(|x: Option<String>| convert_elem(x, u))),
            ArrayData::LargeUtf8(xs) => (r is Ok <==> all_parse(xs@, u)) && (r matches Ok(ys)
                ==> ys@ == xs@.map_values(|x: Option<String>| convert_elem(x, u))),
            _ => true,
        },
{
    if args.len() != 1 {
        return Err(arg_count(args.len(), name));
    }
    match &args[0] {
        ArrayData::Utf8(xs) => convert_texts(xs, u),
        ArrayData::LargeUtf8(xs) => convert_texts(xs, u),
        _ => {
            proof {
                reveal_strlit("failed to downcast to string");
            }
            Err(DataFusionError::Internal(literal("failed to downcast to string")))
        },
    }
}

/// Parses the one text argument, a column or a scalar, into timestamps of unit `u`.
fn handle(args: &[ColumnarValue], u: TimeUnit, name: &str) -> (r: Result<ColumnarValue>)
    ensures
        parse_contract(args@, u, name@, r),
{
    if args.len() != 1 {
        return Err(arg_count(args.len(), name));
    }
    match &args[0] {
        ColumnarValue::Array(a) => match a {
            ArrayData::Utf8(xs) | ArrayData::LargeUtf8(xs) => {
                let ys = convert_texts(xs, u)?;
                Ok(ColumnarValue::Array(ArrayData::Timestamp(u, ys)))
            },
            other => {
                let t = other.data_type_name();
                Err(unsupported_type(t.as_str(), name))
            },
        },
        ColumnarValue::Scalar(scalar) => match scalar {
            ScalarValue::Utf8(x) | ScalarValue::LargeUtf8(x) => match x {
                Some(s) => {
                    let v = parse_in_unit(s.as_str(), u)?;
                    Ok(ColumnarValue::Scalar(ScalarValue::timestamp(u, Some(v))))
                },
                None => Ok(ColumnarValue::Scalar(ScalarValue::timestamp(u, None))),
            },
            other => {
                let t = other.data_type_name();
                Err(unsupported_type(t.as_str(), name))
            },
        },
    }
}

/// `to_timestamp`: text to nanosecond timestamps.
pub fn to_timestamp(args: &[ColumnarValue]) -> (r: Result<ColumnarValue>)
    ensures
        parse_contract(args@, TimeUnit::Nanosecond, "to_timestamp"@, r),
{
    proof {
        reveal_strlit("to_timestamp");
    }
    handle(args, TimeUnit::Nanosecond, "to_timestamp")
}

/// `to_timestamp_millis`: text to millisecond timestamps.
pub fn to_timestamp_millis(args: &[ColumnarValue]) -> (r: Result<ColumnarValue>)
    ensures
        parse_contract(args@, TimeUnit::Millisecond, "to_timestamp_millis"@, r),
{
    proof {
        reveal_strlit("to_timestamp_millis");
    }
    handle(args, TimeUnit::Millisecond, "to_timestamp_millis")
}

/// `to_timestamp_micros`: text to microsecond timestamps.
pub fn to_timestamp_micros(args: &[ColumnarValue]) -> (r: Result<ColumnarValue>)
    ensures
        parse_contract(args@, TimeUnit::Microsecond, "to_timestamp_micros"@, r),
{
    proof {
        reveal_strlit("to_timestamp_micros");
    }
    handle(args, TimeUnit::Microsecond, "to_timestamp_micros")
}

/// `to_timestamp_seconds`: text to second timestamps.
pub fn to_timestamp_seconds(args: &[ColumnarValue]) -> (r: Result<ColumnarValue>)
    ensures
        parse_contract(args@, TimeUnit::Second, "to_timestamp_seconds"@, r),
{
    proof {
        reveal_strlit("to_timestamp_seconds");
    }
    handle(args, TimeUnit::Second, "to_timestamp_seconds")
}

/// Parsing into a coarser unit gives the nanosecond instant divided toward
/// zero: by 1,000,000 for milliseconds, 1,000 for microseconds and
/// 1,000,000,000 for seconds.
pub proof fn lemma_divisor_consistency(s: Seq<char>)
    requires
        parsed_nanos(s) is Some,
    ensures
        timestamp_of(s, TimeUnit::Nanosecond) is Some,
        timestamp_of(s, TimeUnit::Millisecond) == Some(
            trunc_div(timestamp_of(s, TimeUnit::Nanosecond)->Some_0 as int, 1_000_000) as i64,
        ),
        timestamp_of(s, TimeUnit::Microsecond) == Some(
            trunc_div(timestamp_of(s, TimeUnit::Nanosecond)->Some_0 as int, 1_000) as i64,
        ),
        timestamp_of(s, TimeUnit::Second) == Some(
            trunc_div(timestamp_of(s, TimeUnit::Nanosecond)->Some_0 as int, 1_000_000_000) as i64,
        ),
{
    let n = parsed_nanos(s)->Some_0 as int;
    assert(trunc_div(n, 1) == n);
}

/// `now()` for one query: the instant, in nanoseconds since the epoch, chosen
/// when the query was planned.
#[derive(Clone, Copy, Debug, PartialEq, Eq)]
pub struct NowFunction {
    pub now_ts: i64,
}

/// `r` is the UTC nanosecond scalar of the instant `ts`.
pub open spec fn is_now_value(r: Result<ColumnarValue>, ts: i64) -> bool {
    r matches Ok(ColumnarValue::Scalar(ScalarValue::TimestampNanosecond(Some(v), Some(z)))) && v
        == ts && z@ == "UTC"@
}

/// Binds `now()` to one instant.
pub fn make_now(now_ts: i64) -> (r: NowFunction)
    ensures
        r.now_ts == now_ts,
{
    NowFunction { now_ts }
}

impl NowFunction {
    /// Evaluates `now()`: the bound instant with the zone "UTC", on every call
    /// and whatever the arguments.
    pub fn call(&self, args: &[ColumnarValue]) -> (r: Result<ColumnarValue>)
        ensures
            is_now_value(r, self.now_ts),
    {
        proof {
            reveal_strlit("UTC");
        }
        Ok(ColumnarValue::Scalar(ScalarValue::TimestampNanosecond(Some(self.now_ts), Some(literal("UTC")))))
    }
}

} // verus!
