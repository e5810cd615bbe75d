//! Date and time functions of a columnar query engine: parsing text into
//! timestamps, truncating timestamps to calendar buckets, reading calendar
//! fields, and a fixed `now()`. Each function takes its arguments as whole
//! columns or as scalars, and a null element gives a null result.
pub mod calendar;
pub mod part;
pub mod timestamp;
pub mod trunc;
pub mod value;

pub use part::{date_part, DatePart};
pub use timestamp::{
    make_now, parse_in_unit, to_timestamp, to_timestamp_micros, to_timestamp_millis,
    to_timestamp_seconds, unary_string_to_primitive_function, NowFunction,
};
pub use trunc::{date_trunc, date_trunc_single, Granularity};
pub use value::{ArrayData, ColumnarValue, DataFusionError, Result, ScalarValue, TimeUnit};

use vstd::prelude::*;

verus! {

/// Nulls propagate: in every function an element is null in the result
/// exactly where it is null in the argument (for the elements that the
/// function accepts).
pub proof fn lemma_null_propagation(
    x: Option<String>,
    u: TimeUnit,
    y: Option<i64>,
    g: Granularity,
    p: DatePart,
)
    ensures
        timestamp::elem_parses(x, u) ==> (timestamp::convert_elem(x, u) is None <==> x is None),
        trunc::trunc_elem(g, y) is None <==> y is None,
        part::part_fits(p, u, y) ==> (part::part_elem(p, u, y) is None <==> y is None),
{
}

} // verus!
