//! Scalars, columns, and the errors that the date/time functions return.
use vstd::prelude::*;

verus! {

/// Precision of an integer timestamp.
#[derive(Clone, Copy, Debug, PartialEq, Eq)]
pub enum TimeUnit {
    Second,
    Millisecond,
    Microsecond,
    Nanosecond,
}

/// A single nullable value, broadcast to every row of a batch.
#[derive(Clone, Debug, PartialEq)]
pub enum ScalarValue {
    Int32(Option<i32>),
    Int64(Option<i64>),
    Utf8(Option<String>),
    LargeUtf8(Option<String>),
    TimestampSecond(Option<i64>, Option<String>),
    TimestampMillisecond(Option<i64>, Option<String>),
    TimestampMicrosecond(Option<i64>, Option<String>),
    TimestampNanosecond(Option<i64>, Option<String>),
}

/// A column of nullable values of one type. `Utf8` and `LargeUtf8` are text
/// columns whose offsets are 32 and 64 bits wide.
#[derive(Clone, Debug, PartialEq)]
pub enum ArrayData {
    Int32(Vec<Option<i32>>),
    Int64(Vec<Option<i64>>),
    Utf8(Vec<Option<String>>),
    LargeUtf8(Vec<Option<String>>),
    Timestamp(TimeUnit, Vec<Option<i64>>),
}

/// The argument or result of a function: a whole column, or one scalar.
#[derive(Clone, Debug, PartialEq)]
pub enum ColumnarValue {
    Array(ArrayData),
    Scalar(ScalarValue),
}

#[derive(Clone, Debug, PartialEq)]
pub enum DataFusionError {
    /// The function was called with arguments of the wrong kind or number.
    Internal(String),
    /// The request names something that is not supported.
    Execution(String),
    /// Text could not be parsed as a timestamp.
    ArrowError(String),
}

pub type Result<T> = core::result::Result<T, DataFusionError>;

/// `r` failed with an internal error whose message is `m`.
pub open spec fn internal_err<T>(r: Result<T>, m: Seq<char>) -> bool {
    r matches Err(e) && e.is_internal(m)
}

/// `r` failed with an execution error whose message is `m`.
pub open spec fn execution_err<T>(r: Result<T>, m: Seq<char>) -> bool {
    r matches Err(e) && e.is_execution(m)
}

pub open spec fn unit_name(u: TimeUnit) -> Seq<char> {
    match u {
        TimeUnit::Second => "Second"@,
        TimeUnit::Millisecond => "Millisecond"@,
        TimeUnit::Microsecond => "Microsecond"@,
        TimeUnit::Nanosecond => "Nanosecond"@,
    }
}

pub open spec fn timestamp_type_name(u: TimeUnit, tz: Option<Seq<char>>) -> Seq<char> {
    match tz {
        None => "Timestamp("@ + unit_name(u) + ", None)"@,
        Some(t) => "Timestamp("@ + unit_name(u) + ", Some(\""@ + t + "\"))"@,
    }
}

pub open spec fn tz_view(tz: Option<String>) -> Option<Seq<char>> {
    match tz {
        None => None,
        Some(t) => Some(t@),
    }
}

impl ArrayData {
    pub open spec fn data_type_name_spec(&self) -> Seq<char> {
        match self {
            ArrayData::Int32(_) => "Int32"@,
            ArrayData::Int64(_) => "Int64"@,
            ArrayData::Utf8(_) => "Utf8"@,
            ArrayData::LargeUtf8(_) => "LargeUtf8"@,
            ArrayData::Timestamp(u, _) => timestamp_type_name(*u, None),
        }
    }

    /// Name of the column's type, as it appears in error messages.
    pub fn data_type_name(&self) -> (r: String)
        ensures
            r@ == self.data_type_name_spec(),
    {
        match self {
            ArrayData::Int32(_) => literal("Int32"),
            ArrayData::Int64(_) => literal("Int64"),
            ArrayData::Utf8(_) => literal("Utf8"),
            ArrayData::LargeUtf8(_) => literal("LargeUtf8"),
            ArrayData::Timestamp(u, _) => timestamp_name(*u, &None),
        }
    }

    pub open spec fn len_spec(&self) -> nat {
        match self {
            ArrayData::Int32(v) => v@.len(),
            ArrayData::Int64(v) => v@.len(),
            ArrayData::Utf8(v) => v@.len(),
            ArrayData::LargeUtf8(v) => v@.len(),
            ArrayData::Timestamp(_, v) => v@.len(),
        }
    }

    /// Number of rows.
    pub fn len(&self) -> (r: usize)
        ensures
            r == self.len_spec(),
    {
        match self {
            ArrayData::Int32(v) => v.len(),
            ArrayData::Int64(v) => v.len(),
            ArrayData::Utf8(v) => v.len(),
            ArrayData::LargeUtf8(v) => v.len(),
            ArrayData::Timestamp(_, v) => v.len(),
        }
    }
}

impl ScalarValue {
    pub open spec fn data_type_name_spec(&self) -> Seq<char> {
        match self {
            ScalarValue::Int32(_) => "Int32"@,
            ScalarValue::Int64(_) => "Int64"@,
            ScalarValue::Utf8(_) => "Utf8"@,
            ScalarValue::LargeUtf8(_) => "LargeUtf8"@,
            ScalarValue::TimestampSecond(_, tz) => timestamp_type_name(TimeUnit::Second, tz_view(*tz)),
            ScalarValue::TimestampMillisecond(_, tz) => timestamp_type_name(TimeUnit::Millisecond, tz_view(*tz)),
            ScalarValue::TimestampMicrosecond(_, tz) => timestamp_type_name(TimeUnit::Microsecond, tz_view(*tz)),
            ScalarValue::TimestampNanosecond(_, tz) => timestamp_type_name(TimeUnit::Nanosecond, tz_view(*tz)),
        }
    }

    /// Name of the scalar's type, as it appears in error messages.
    pub fn data_type_name(&self) -> (r: String)
        ensures
            r@ == self.data_type_name_spec(),
    {
        match self {
            ScalarValue::Int32(_) => literal("Int32"),
            ScalarValue::Int64(_) => literal("Int64"),
            ScalarValue::Utf8(_) => literal("Utf8"),
            ScalarValue::LargeUtf8(_) => literal("LargeUtf8"),
            ScalarValue::TimestampSecond(_, tz) => timestamp_name(TimeUnit::Second, tz),
            ScalarValue::TimestampMillisecond(_, tz) => timestamp_name(TimeUnit::Millisecond, tz),
            ScalarValue::TimestampMicrosecond(_, tz) => timestamp_name(TimeUnit::Microsecond, tz),
            ScalarValue::TimestampNanosecond(_, tz) => timestamp_name(TimeUnit::Nanosecond, tz),
        }
    }

    /// A null scalar of a timestamp type.
    pub open spec fn null_timestamp(u: TimeUnit) -> ScalarValue {
        match u {
            TimeUnit::Second => ScalarValue::TimestampSecond(None, None),
            TimeUnit::Millisecond => ScalarValue::TimestampMillisecond(None, None),
            TimeUnit::Microsecond => ScalarValue::TimestampMicrosecond(None, None),
            TimeUnit::Nanosecond => ScalarValue::TimestampNanosecond(None, None),
        }
    }

    /// A scalar of a timestamp type, without a time zone.
    pub open spec fn timestamp_spec(u: TimeUnit, v: Option<i64>) -> ScalarValue {
        match u {
            TimeUnit::Second => ScalarValue::TimestampSecond(v, None),
            TimeUnit::Millisecond => ScalarValue::TimestampMillisecond(v, None),
            TimeUnit::Microsecond => ScalarValue::TimestampMicrosecond(v, None),
            TimeUnit::Nanosecond => ScalarValue::TimestampNanosecond(v, None),
        }
    }

    pub fn timestamp(u: TimeUnit, v: Option<i64>) -> (r: ScalarValue)
        ensures
            r == Self::timestamp_spec(u, v),
    {
        match u {
            TimeUnit::Second => ScalarValue::TimestampSecond(v, None),
            TimeUnit::Millisecond => ScalarValue::TimestampMillisecond(v, None),
            TimeUnit::Microsecond => ScalarValue::TimestampMicrosecond(v, None),
            TimeUnit::Nanosecond => ScalarValue::TimestampNanosecond(v, None),
        }
    }
}

impl DataFusionError {
    pub open spec fn is_internal(&self, m: Seq<char>) -> bool {
        self matches DataFusionError::Internal(s) && s@ == m
    }

    pub open spec fn is_execution(&self, m: Seq<char>) -> bool {
        self matches DataFusionError::Execution(s) && s@ == m
    }

    pub open spec fn to_string_spec(&self) -> Seq<char> {
        match self {
            DataFusionError::Internal(m) => "Internal error: "@ + m@,
            DataFusionError::Execution(m) => "Execution error: "@ + m@,
            DataFusionError::ArrowError(m) => "Arrow error: "@ + m@,
        }
    }

    /// The error as text, with its kind before the message.
    pub fn to_string(&self) -> (r: String)
        ensures
            r@ == self.to_string_spec(),
    {
        proof {
            reveal_strlit("Internal error: ");
            reveal_strlit("Execution error: ");
            reveal_strlit("Arrow error: ");
        }
        match self {
            DataFusionError::Internal(m) => concat("Internal error: ", m.as_str()),
            DataFusionError::Execution(m) => concat("Execution error: ", m.as_str()),
            DataFusionError::ArrowError(m) => concat("Arrow error: ", m.as_str()),
        }
    }
}

/// Text of a number in decimal digits.
pub open spec fn decimal(n: nat) -> Seq<char>
    decreases n,
{
    let digit = seq![(('0' as u8) + (n % 10) as u8) as char];
    if n < 10 { digit } else { decimal(n / 10) + digit }
}

pub open spec fn unsupported_type_message(data_type_name: Seq<char>, function: Seq<char>) -> Seq<char> {
    "Unsupported data type "@ + data_type_name + " for function "@ + function
}

pub open spec fn arg_count_message(n: nat, function: Seq<char>) -> Seq<char> {
    decimal(n) + " args were supplied but "@ + function + " takes exactly one argument"@
}

/// Relies on std's `format!`: the two strings one after the other.
#[verifier::external_body]
pub(crate) fn concat(a: &str, b: &str) -> (r: String)
    ensures
        r@ == a@ + b@,
{
    format!("{}{}", a, b)
}

/// Relies on std's `ToString` for `usize`: the decimal digits of the number.
#[verifier::external_body]
fn usize_text(n: usize) -> (r: String)
    ensures
        r@ == decimal(n as nat),
{
    n.to_string()
}

pub fn literal(s: &str) -> (r: String)
    ensures
        r@ == s@,
{
    s.to_owned()
}

fn timestamp_name(u: TimeUnit, tz: &Option<String>) -> (r: String)
    ensures
        r@ == timestamp_type_name(u, tz_view(*tz)),
{
    proof {
        reveal_strlit("Second");
        reveal_strlit("Millisecond");
        reveal_strlit("Microsecond");
        reveal_strlit("Nanosecond");
        reveal_strlit("Timestamp(");
        reveal_strlit(", None)");
        reveal_strlit(", Some(\"");
        reveal_strlit("\"))");
    }
    let unit = match u {
        TimeUnit::Second => "Second",
        TimeUnit::Millisecond => "Millisecond",
        TimeUnit::Microsecond => "Microsecond",
        TimeUnit::Nanosecond => "Nanosecond",
    };
    let head = concat("Timestamp(", unit);
    match tz {
        None => concat(head.as_str(), ", None)"),
        Some(t) => {
            let a = concat(head.as_str(), ", Some(\"");
            let b = concat(a.as_str(), t.as_str());
            concat(b.as_str(), "\"))")
        },
    }
}

/// `Unsupported data type {data_type_name} for function {function}`.
pub fn unsupported_type(data_type_name: &str, function: &str) -> (r: DataFusionError)
    ensures
        r.is_internal(unsupported_type_message(data_type_name@, function@)),
{
    proof {
        reveal_strlit("Unsupported data type ");
        reveal_strlit(" for function ");
    }
    let a = concat("Unsupported data type ", data_type_name);
    let b = concat(a.as_str(), " for function ");
    let m = concat(b.as_str(), function);
    assert(m@ == unsupported_type_message(data_type_name@, function@));
    DataFusionError::Internal(m)
}

/// `{n} args were supplied but {function} takes exactly one argument`.
pub fn arg_count(n: usize, function: &str) -> (r: DataFusionError)
    ensures
        r.is_internal(arg_count_message(n as nat, function@)),
{
    proof {
        reveal_strlit(" args were supplied but ");
        reveal_strlit(" takes exactly one argument");
    }
    let a = usize_text(n);
    let b = concat(a.as_str(), " args were supplied but ");
    let c = concat(b.as_str(), function);
    let m = concat(c.as_str(), " takes exactly one argument");
    assert(m@ == arg_count_message(n as nat, function@));
    DataFusionError::Internal(m)
}

} // verus!
