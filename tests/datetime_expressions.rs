use datetime_expressions::{
    date_part, date_trunc, date_trunc_single, make_now, parse_in_unit, to_timestamp,
    to_timestamp_micros, to_timestamp_millis, to_timestamp_seconds,
    unary_string_to_primitive_function, ArrayData, ColumnarValue, DataFusionError, DatePart,
    Granularity, ScalarValue, TimeUnit,
};

fn text(s: &str) -> ColumnarValue {
    ColumnarValue::Scalar(ScalarValue::Utf8(Some(s.to_string())))
}

fn nanos(s: &str) -> i64 {
    parse_in_unit(s, TimeUnit::Nanosecond).unwrap()
}

#[test]
fn to_timestamp_arrays_and_nulls() {
    let string_array = ColumnarValue::Array(ArrayData::Utf8(vec![
        Some("2020-09-08T13:42:29.190855Z".to_string()),
        None,
    ]));
    let expected = ArrayData::Timestamp(TimeUnit::Nanosecond, vec![Some(1599572549190855000), None]);
    let parsed = to_timestamp(&[string_array]).expect("that to_timestamp parsed values without error");
    if let ColumnarValue::Array(parsed_array) = parsed {
        assert_eq!(parsed_array.len(), 2);
        assert_eq!(expected, parsed_array);
    } else {
        panic!("Expected a columnar array")
    }
}

#[test]
fn date_trunc_test() {
    let cases = vec![
        ("2020-09-08T13:42:29.190855Z", "second", "2020-09-08T13:42:29.000000Z"),
        ("2020-09-08T13:42:29.190855Z", "minute", "2020-09-08T13:42:00.000000Z"),
        ("2020-09-08T13:42:29.190855Z", "hour", "2020-09-08T13:00:00.000000Z"),
        ("2020-09-08T13:42:29.190855Z", "day", "2020-09-08T00:00:00.000000Z"),
        ("2020-09-08T13:42:29.190855Z", "week", "2020-09-07T00:00:00.000000Z"),
        ("2020-09-08T13:42:29.190855Z", "month", "2020-09-01T00:00:00.000000Z"),
        ("2020-09-08T13:42:29.190855Z", "year", "2020-01-01T00:00:00.000000Z"),
        ("2021-01-01T13:42:29.190855Z", "week", "2020-12-28T00:00:00.000000Z"),
        ("2020-01-01T13:42:29.190855Z", "week", "2019-12-30T00:00:00.000000Z"),
    ];
    for (original, granularity, expected) in cases {
        let original = nanos(original);
        let expected = nanos(expected);
        let result = date_trunc_single(granularity, original).unwrap();
        assert_eq!(result, expected);
    }
}

#[test]
fn to_timestamp_invalid_input_type() {
    let int64array = ColumnarValue::Array(ArrayData::Int64(vec![Some(1)]));
    let expected_err = "Internal error: Unsupported data type Int64 for function to_timestamp";
    match to_timestamp(&[int64array]) {
        Ok(_) => panic!("Expected error but got success"),
        Err(e) => {
            let actual = e.to_string();
            assert!(
                actual.contains(expected_err),
                "Can not find expected error '{}'. Actual error '{}'",
                expected_err,
                actual
            );
        }
    }
}

#[test]
fn parsed_units_divide_toward_zero() {
    let s = "2020-09-08T13:42:29.190855Z";
    let arg = [text(s)];
    let ns = 1599572549190855000i64;
    assert_eq!(
        to_timestamp(&arg).unwrap(),
        ColumnarValue::Scalar(ScalarValue::TimestampNanosecond(Some(ns), None))
    );
    assert_eq!(
        to_timestamp_millis(&arg).unwrap(),
        ColumnarValue::Scalar(ScalarValue::TimestampMillisecond(Some(1599572549190), None))
    );
    assert_eq!(
        to_timestamp_micros(&arg).unwrap(),
        ColumnarValue::Scalar(ScalarValue::TimestampMicrosecond(Some(1599572549190855), None))
    );
    assert_eq!(
        to_timestamp_seconds(&arg).unwrap(),
        ColumnarValue::Scalar(ScalarValue::TimestampSecond(Some(1599572549), None))
    );
}

#[test]
fn negative_instants_divide_toward_zero() {
    let arg = [text("1969-12-31T23:59:59.999999999Z")];
    assert_eq!(
        to_timestamp(&arg).unwrap(),
        ColumnarValue::Scalar(ScalarValue::TimestampNanosecond(Some(-1), None))
    );
    assert_eq!(
        to_timestamp_seconds(&arg).unwrap(),
        ColumnarValue::Scalar(ScalarValue::TimestampSecond(Some(0), None))
    );
    let arg = [text("1969-12-31T23:59:58.5Z")];
    assert_eq!(
        to_timestamp_seconds(&arg).unwrap(),
        ColumnarValue::Scalar(ScalarValue::TimestampSecond(Some(-1), None))
    );
}

#[test]
fn null_scalars_and_wide_text_columns() {
    let null = [ColumnarValue::Scalar(ScalarValue::LargeUtf8(None))];
    assert_eq!(
        to_timestamp_millis(&null).unwrap(),
        ColumnarValue::Scalar(ScalarValue::TimestampMillisecond(None, None))
    );
    let column = [ColumnarValue::Array(ArrayData::LargeUtf8(vec![
        None,
        Some("1970-01-01T00:00:01Z".to_string()),
    ]))];
    assert_eq!(
        to_timestamp_seconds(&column).unwrap(),
        ColumnarValue::Array(ArrayData::Timestamp(TimeUnit::Second, vec![None, Some(1)]))
    );
}

#[test]
fn unparseable_text_fails_the_whole_call() {
    let column = [ColumnarValue::Array(ArrayData::Utf8(vec![
        Some("2020-09-08T13:42:29Z".to_string()),
        Some("not a time".to_string()),
    ]))];
    assert!(matches!(to_timestamp(&column), Err(DataFusionError::ArrowError(_))));
    assert!(parse_in_unit("garbage", TimeUnit::Nanosecond).is_err());
}

#[test]
fn wrong_argument_count_and_type() {
    let two = [text("2020-09-08T13:42:29Z"), text("x")];
    assert_eq!(
        to_timestamp(&two).unwrap_err().to_string(),
        "Internal error: 2 args were supplied but to_timestamp takes exactly one argument"
    );
    assert_eq!(
        to_timestamp_seconds(&[]).unwrap_err(),
        DataFusionError::Internal(
            "0 args were supplied but to_timestamp_seconds takes exactly one argument".to_string()
        )
    );
    let scalar = [ColumnarValue::Scalar(ScalarValue::Int64(Some(1)))];
    assert_eq!(
        to_timestamp_millis(&scalar).unwrap_err().to_string(),
        "Internal error: Unsupported data type Int64 for function to_timestamp_millis"
    );
    let ts = [ColumnarValue::Scalar(ScalarValue::TimestampNanosecond(Some(1), Some("UTC".to_string())))];
    assert_eq!(
        to_timestamp(&ts).unwrap_err().to_string(),
        "Internal error: Unsupported data type Timestamp(Nanosecond, Some(\"UTC\")) for function to_timestamp"
    );
}

#[test]
fn element_dispatcher_checks_its_argument() {
    let column = ArrayData::Utf8(vec![Some("1970-01-01T00:00:00.001Z".to_string()), None]);
    assert_eq!(
        unary_string_to_primitive_function(&[column], TimeUnit::Microsecond, "f").unwrap(),
        vec![Some(1000), None]
    );
    assert_eq!(
        unary_string_to_primitive_function(&[ArrayData::Int32(vec![])], TimeUnit::Second, "f").unwrap_err(),
        DataFusionError::Internal("failed to downcast to string".to_string())
    );
    assert_eq!(
        unary_string_to_primitive_function(&[], TimeUnit::Second, "f").unwrap_err(),
        DataFusionError::Internal("0 args were supplied but f takes exactly one argument".to_string())
    );
}

#[test]
fn date_trunc_columns_keep_nulls() {
    let t = nanos("2020-09-08T13:42:29.190855Z");
    let args = [
        text("day"),
        ColumnarValue::Array(ArrayData::Timestamp(TimeUnit::Nanosecond, vec![Some(t), None])),
    ];
    assert_eq!(
        date_trunc(&args).unwrap(),
        ColumnarValue::Array(ArrayData::Timestamp(
            TimeUnit::Nanosecond,
            vec![Some(nanos("2020-09-08T00:00:00Z")), None]
        ))
    );
    let args = [text("month"), ColumnarValue::Array(ArrayData::Int64(vec![None, Some(t)]))];
    assert_eq!(
        date_trunc(&args).unwrap(),
        ColumnarValue::Array(ArrayData::Timestamp(
            TimeUnit::Nanosecond,
            vec![None, Some(nanos("2020-09-01T00:00:00Z"))]
        ))
    );
}

#[test]
fn date_trunc_scalar_keeps_time_zone() {
    let t = nanos("2020-09-08T13:42:29.190855Z");
    let args = [
        text("hour"),
        ColumnarValue::Scalar(ScalarValue::TimestampNanosecond(Some(t), Some("+05:00".to_string()))),
    ];
    assert_eq!(
        date_trunc(&args).unwrap(),
        ColumnarValue::Scalar(ScalarValue::TimestampNanosecond(
            Some(nanos("2020-09-08T13:00:00Z")),
            Some("+05:00".to_string())
        ))
    );
    let args = [text("year"), ColumnarValue::Scalar(ScalarValue::TimestampNanosecond(None, None))];
    assert_eq!(
        date_trunc(&args).unwrap(),
        ColumnarValue::Scalar(ScalarValue::TimestampNanosecond(None, None))
    );
}

#[test]
fn date_trunc_rejects_bad_requests() {
    let t = ColumnarValue::Scalar(ScalarValue::TimestampNanosecond(Some(0), None));
    assert_eq!(
        date_trunc(&[text("decade"), t.clone()]).unwrap_err().to_string(),
        "Execution error: Unsupported date_trunc granularity: decade"
    );
    assert_eq!(
        date_trunc(&[ColumnarValue::Scalar(ScalarValue::Utf8(None)), t.clone()]).unwrap_err(),
        DataFusionError::Execution("Granularity of `date_trunc` must be non-null scalar Utf8".to_string())
    );
    assert_eq!(
        date_trunc(&[text("day")]).unwrap_err(),
        DataFusionError::Execution("Expected two arguments in DATE_TRUNC".to_string())
    );
    assert_eq!(
        date_trunc(&[text("day"), ColumnarValue::Array(ArrayData::Int32(vec![Some(1)]))])
            .unwrap_err()
            .to_string(),
        "Internal error: Unsupported data type Int32 for function date_trunc"
    );
    assert_eq!(
        date_trunc_single("fortnight", 0).unwrap_err(),
        DataFusionError::Execution("Unsupported date_trunc granularity: fortnight".to_string())
    );
}

#[test]
fn date_trunc_before_the_epoch() {
    let t = nanos("1969-12-31T12:30:00.5Z");
    assert_eq!(date_trunc_single("second", t).unwrap(), nanos("1969-12-31T12:30:00Z"));
    assert_eq!(date_trunc_single("day", t).unwrap(), nanos("1969-12-31T00:00:00Z"));
    assert_eq!(date_trunc_single("week", 0).unwrap(), nanos("1969-12-29T00:00:00Z"));
    assert_eq!(date_trunc_single("month", -1).unwrap(), nanos("1969-12-01T00:00:00Z"));
    assert_eq!(date_trunc_single("year", -1).unwrap(), nanos("1969-01-01T00:00:00Z"));
}

#[test]
fn date_trunc_leap_day() {
    let t = nanos("2020-02-29T23:59:59Z");
    assert_eq!(date_trunc_single("month", t).unwrap(), nanos("2020-02-01T00:00:00Z"));
    assert_eq!(date_trunc_single("week", t).unwrap(), nanos("2020-02-24T00:00:00Z"));
    let t = nanos("2000-03-01T00:00:00Z");
    assert_eq!(date_trunc_single("year", t).unwrap(), nanos("2000-01-01T00:00:00Z"));
}

#[test]
fn date_trunc_at_the_edges_of_i64() {
    assert_eq!(
        date_trunc_single("year", i64::MIN).unwrap_err(),
        DataFusionError::Internal("date_trunc result is out of range".to_string())
    );
    assert!(date_trunc_single("second", i64::MIN).is_err());
    assert_eq!(
        date_trunc_single("second", i64::MAX).unwrap(),
        i64::MAX - i64::MAX % 1_000_000_000
    );
    assert_eq!(date_trunc_single("year", i64::MAX).unwrap(), nanos("2262-01-01T00:00:00Z"));
}

#[test]
fn date_trunc_twice_is_date_trunc_once() {
    let names = ["second", "minute", "hour", "day", "week", "month", "year"];
    let instants = [
        nanos("2020-09-08T13:42:29.190855Z"),
        nanos("2021-01-01T13:42:29.190855Z"),
        nanos("1969-07-20T20:17:40Z"),
        -1,
        0,
    ];
    for g in names {
        for t in instants {
            let once = date_trunc_single(g, t).unwrap();
            assert_eq!(date_trunc_single(g, once).unwrap(), once);
        }
    }
}

#[test]
fn date_trunc_keeps_order() {
    let names = ["second", "minute", "hour", "day", "week", "month", "year"];
    let instants = [
        nanos("1969-07-20T20:17:40Z"),
        -1,
        0,
        nanos("2020-01-01T00:00:00Z"),
        nanos("2020-09-08T13:42:29.190855Z"),
        nanos("2021-01-01T13:42:29.190855Z"),
    ];
    for g in names {
        for w in instants.windows(2) {
            assert!(date_trunc_single(g, w[0]).unwrap() <= date_trunc_single(g, w[1]).unwrap());
        }
    }
}

#[test]
fn granularity_names() {
    assert_eq!(Granularity::parse("week"), Some(Granularity::Week));
    assert_eq!(Granularity::parse("Week"), None);
    assert_eq!(DatePart::parse("year"), Some(DatePart::Year));
    assert_eq!(DatePart::parse("YEAR"), None);
}

#[test]
fn date_part_hour_and_year() {
    let t = nanos("2020-09-08T13:42:29.190855Z");
    let scalar = ColumnarValue::Scalar(ScalarValue::TimestampNanosecond(Some(t), None));
    assert_eq!(
        date_part(&[text("hour"), scalar.clone()]).unwrap(),
        ColumnarValue::Scalar(ScalarValue::Int32(Some(13)))
    );
    assert_eq!(
        date_part(&[text("YEAR"), scalar]).unwrap(),
        ColumnarValue::Scalar(ScalarValue::Int32(Some(2020)))
    );
    let column = ColumnarValue::Array(ArrayData::Timestamp(
        TimeUnit::Second,
        vec![Some(1599572549), None, Some(-1)],
    ));
    assert_eq!(
        date_part(&[text("Hour"), column.clone()]).unwrap(),
        ColumnarValue::Array(ArrayData::Int32(vec![Some(13), None, Some(23)]))
    );
    assert_eq!(
        date_part(&[text("year"), column]).unwrap(),
        ColumnarValue::Array(ArrayData::Int32(vec![Some(2020), None, Some(1969)]))
    );
    let millis = ColumnarValue::Scalar(ScalarValue::TimestampMillisecond(Some(951_782_400_000), None));
    assert_eq!(
        date_part(&[text("year"), millis]).unwrap(),
        ColumnarValue::Scalar(ScalarValue::Int32(Some(2000)))
    );
}

#[test]
fn date_part_rejects_bad_requests() {
    let scalar = ColumnarValue::Scalar(ScalarValue::TimestampNanosecond(Some(0), None));
    assert_eq!(
        date_part(&[text("Minute"), scalar.clone()]).unwrap_err().to_string(),
        "Execution error: Date part 'Minute' not supported"
    );
    assert_eq!(
        date_part(&[scalar.clone()]).unwrap_err(),
        DataFusionError::Execution("Expected two arguments in DATE_PART".to_string())
    );
    assert_eq!(
        date_part(&[scalar.clone(), scalar]).unwrap_err(),
        DataFusionError::Execution(
            "First argument of `DATE_PART` must be non-null scalar Utf8".to_string()
        )
    );
    assert_eq!(
        date_part(&[text("hour"), text("x")]).unwrap_err().to_string(),
        "Internal error: Unsupported data type Utf8 for function date_part"
    );
    let far = ColumnarValue::Scalar(ScalarValue::TimestampSecond(Some(i64::MAX), None));
    assert_eq!(
        date_part(&[text("year"), far]).unwrap_err(),
        DataFusionError::Execution("date_part value is out of range".to_string())
    );
}

#[test]
fn now_is_fixed_for_the_query() {
    let now = make_now(1599572549190855000);
    let first = now.call(&[]).unwrap();
    let second = now.call(&[text("ignored")]).unwrap();
    let expected = ColumnarValue::Scalar(ScalarValue::TimestampNanosecond(
        Some(1599572549190855000),
        Some("UTC".to_string()),
    ));
    assert_eq!(first, expected);
    assert_eq!(second, expected);
}

#[test]
fn error_texts() {
    assert_eq!(DataFusionError::ArrowError("bad".to_string()).to_string(), "Arrow error: bad");
    assert_eq!(
        DataFusionError::Execution("x".to_string()).to_string(),
        "Execution error: x"
    );
}
