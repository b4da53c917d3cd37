use field_codec::value_presenter::value::json_codec::JsonCodec;
use field_codec::value_presenter::value::naive_date_time::{normalize, NaiveDateTime};
use serde_json::Value;

fn json_of(text: &str) -> Value {
    serde_json::from_str(text).unwrap()
}


#[test]
fn naive_date_time_test_from_json() {
    let expected = NaiveDateTime {
        year: 2022,
        month: 4,
        day: 29,
        hour: 7,
        minute: 34,
        second: 10,
        nanosecond: 420159000,
    };

    {
        let json = json_of(r#""2022-04-29T07:34:10.420159""#);
        let pdt = NaiveDateTime::from_json(&json).unwrap();

        assert_eq!(pdt, expected);
    }

    // with timezone
    {
        let json = json_of(r#""2022-04-29T07:34:10.420159Z""#);
        let pdt = NaiveDateTime::from_json(&json).unwrap();

        assert_eq!(pdt, expected);
    }

    // without ms
    {
        let json = json_of(r#""2022-04-29T07:34:10Z""#);
        let pdt = NaiveDateTime::from_json(&json).unwrap();
        let expected = NaiveDateTime {
            year: 2022,
            month: 4,
            day: 29,
            hour: 7,
            minute: 34,
            second: 10,
            nanosecond: 0,
        };

        assert_eq!(pdt, expected);
    }

    // invalid json
    {
        let json = json_of(r#""2022-04-29 07:34""#);
        let pdt = NaiveDateTime::from_json(&json);

        assert!(matches!(pdt, Err(_)));
    }
}

#[test]
fn naive_date_time_test_to_json() {
    {
        let json = json_of(r#""2022-04-29T07:34:10""#);
        let pdt = NaiveDateTime::from_json(&json);

        assert_eq!(pdt.unwrap().to_json(), json);
    }

    // with nanosecond
    {
        let json = json_of(r#""2022-04-29T07:34:10.420159""#);
        let pdt = NaiveDateTime::from_json(&json);

        assert_eq!(pdt.unwrap().to_json(), json);
    }
}

#[test]
fn naive_date_time_normalize_appends_one_z() {
    assert_eq!(normalize("2022-04-29T07:34:10"), "2022-04-29T07:34:10Z");
    assert_eq!(normalize("2022-04-29T07:34:10Z"), "2022-04-29T07:34:10Z");
    assert_eq!(normalize(""), "Z");
    assert_eq!(normalize("Z"), "Z");
    assert_eq!(normalize("z"), "zZ");
    assert_eq!(normalize("ZZ"), "ZZ");
    assert_eq!(normalize("Zé"), "ZéZ");
}

#[test]
fn naive_date_time_validity_follows_the_calendar() {
    assert!(NaiveDateTime::new(2020, 2, 29, 0, 0, 0, 0).check_valid());
    assert!(!NaiveDateTime::new(2021, 2, 29, 0, 0, 0, 0).check_valid());
    assert!(!NaiveDateTime::new(1900, 2, 29, 0, 0, 0, 0).check_valid());
    assert!(NaiveDateTime::new(2000, 2, 29, 0, 0, 0, 0).check_valid());
    assert!(NaiveDateTime::new(-4, 2, 29, 0, 0, 0, 0).check_valid());
    assert!(!NaiveDateTime::new(-1, 2, 29, 0, 0, 0, 0).check_valid());
    assert!(NaiveDateTime::new(2021, 4, 30, 23, 59, 59, 999_999_999).check_valid());
    assert!(!NaiveDateTime::new(2021, 4, 31, 0, 0, 0, 0).check_valid());
    assert!(NaiveDateTime::new(2021, 12, 31, 0, 0, 0, 0).check_valid());
    assert!(!NaiveDateTime::new(2021, 13, 1, 0, 0, 0, 0).check_valid());
    assert!(!NaiveDateTime::new(2021, 0, 1, 0, 0, 0, 0).check_valid());
    assert!(!NaiveDateTime::new(2021, 1, 0, 0, 0, 0, 0).check_valid());
    assert!(!NaiveDateTime::new(2021, 1, 1, 24, 0, 0, 0).check_valid());
    assert!(!NaiveDateTime::new(2021, 1, 1, 0, 60, 0, 0).check_valid());
    assert!(!NaiveDateTime::new(2021, 1, 1, 0, 0, 60, 0).check_valid());
    assert!(!NaiveDateTime::new(2021, 1, 1, 0, 0, 0, 1_000_000_000).check_valid());
    assert!(NaiveDateTime::new(9999, 12, 31, 0, 0, 0, 0).check_valid());
    assert!(!NaiveDateTime::new(10000, 1, 1, 0, 0, 0, 0).check_valid());
    assert!(NaiveDateTime::new(-9999, 1, 1, 0, 0, 0, 0).check_valid());
    assert!(!NaiveDateTime::new(-10000, 1, 1, 0, 0, 0, 0).check_valid());
}

#[test]
fn naive_date_time_fraction_is_written_with_the_digits_it_needs() {
    assert_eq!(NaiveDateTime::new(2020, 1, 1, 0, 0, 0, 0).to_str(), "2020-01-01T00:00:00");
    assert_eq!(
        NaiveDateTime::new(2020, 1, 1, 0, 0, 0, 500_000_000).to_str(),
        "2020-01-01T00:00:00.5"
    );
    assert_eq!(
        NaiveDateTime::new(2020, 1, 1, 0, 0, 0, 123_456_000).to_str(),
        "2020-01-01T00:00:00.123456"
    );
    assert_eq!(
        NaiveDateTime::new(2020, 12, 31, 23, 59, 59, 1).to_str(),
        "2020-12-31T23:59:59.000000001"
    );
    assert_eq!(NaiveDateTime::new(5, 6, 7, 8, 9, 10, 0).to_str(), "0005-06-07T08:09:10");
}

#[test]
fn naive_date_time_from_json_takes_only_date_time_texts() {
    for text in [
        "null",
        "1",
        r#""""#,
        r#""2022-04-29""#,
        r#""2022-04-29 07:34""#,
        r#""2022-02-30T07:34:10""#,
        r#""2022-04-29T24:00:00""#,
        r#""not a date""#,
    ] {
        assert!(NaiveDateTime::from_json(&json_of(text)).is_err());
    }
}

#[test]
fn naive_date_time_round_trip() {
    for value in [
        NaiveDateTime::new(2022, 4, 29, 7, 34, 10, 420159000),
        NaiveDateTime::new(2020, 2, 29, 23, 59, 59, 0),
        NaiveDateTime::new(1, 1, 1, 0, 0, 0, 1),
        NaiveDateTime::new(9999, 12, 31, 23, 59, 59, 999_999_999),
    ] {
        assert_eq!(NaiveDateTime::from_json(&value.to_json()), Ok(value));
    }
}

#[test]
fn naive_date_time_every_valid_date_time_can_be_written() {
    let mut written = Vec::new();
    for (year, month, day) in [
        (-9999, 1, 1),
        (-4, 2, 29),
        (-1, 12, 31),
        (0, 2, 29),
        (1, 1, 1),
        (1900, 2, 28),
        (2000, 2, 29),
        (9999, 12, 31),
    ] {
        for (hour, minute, second, nanosecond) in [(0, 0, 0, 0), (23, 59, 59, 999_999_999)] {
            let value = NaiveDateTime::new(year, month, day, hour, minute, second, nanosecond);
            assert!(value.check_valid());
            written.push(value.to_str());
        }
    }

    assert_eq!(written[0], "-9999-01-01T00:00:00");
    assert_eq!(written[6], "0000-02-29T00:00:00");
    assert_eq!(written[15], "9999-12-31T23:59:59.999999999");
}

#[test]
fn naive_date_time_is_canonical_where_its_text_reads_back() {
    assert!(NaiveDateTime::new(2022, 4, 29, 7, 34, 10, 420159000).is_canonical());
    assert!(NaiveDateTime::new(0, 1, 1, 0, 0, 0, 0).is_canonical());
    assert!(NaiveDateTime::new(9999, 12, 31, 23, 59, 59, 999_999_999).is_canonical());
    assert!(NaiveDateTime::new(2020, 2, 29, 12, 0, 0, 100).is_canonical());

    // the text of a negative year has a sign, which is not read
    assert!(NaiveDateTime::new(-1, 1, 1, 0, 0, 0, 0).check_valid());
    assert!(!NaiveDateTime::new(-1, 1, 1, 0, 0, 0, 0).is_canonical());
    // what is not valid is not canonical
    assert!(!NaiveDateTime::new(2021, 2, 29, 0, 0, 0, 0).is_canonical());
    assert!(!NaiveDateTime::new(2021, 1, 1, 24, 0, 0, 0).is_canonical());
}

#[test]
fn naive_date_time_that_was_read_is_canonical() {
    for text in [
        "2022-04-29T07:34:10.420159",
        "2022-04-29T07:34:10Z",
        "0000-01-01T00:00:00.000000001",
        "9999-12-31 23:59:59.9",
    ] {
        let value = NaiveDateTime::parse_str(text).unwrap();

        assert!(value.check_valid());
        assert!(value.year >= 0);
        assert!(value.is_canonical());
        assert_eq!(NaiveDateTime::parse_str(&value.to_str()), Ok(value));
    }
}

#[test]
fn naive_date_time_of_a_year_that_is_not_negative_reads_back() {
    for year in [0, 1, 9, 10, 99, 100, 999, 1000, 1970, 2024, 9999] {
        for (month, day) in [(1, 1), (2, 28), (6, 30), (12, 31)] {
            for (hour, minute, second) in [(0, 0, 0), (9, 5, 7), (23, 59, 59)] {
                for nanosecond in [
                    0,
                    1,
                    10,
                    1_000,
                    100_000_000,
                    120_000_000,
                    123_456_789,
                    500_000_000,
                    999_999_999,
                ] {
                    let value =
                        NaiveDateTime::new(year, month, day, hour, minute, second, nanosecond);

                    assert!(value.check_valid());
                    assert!(value.is_canonical());
                    assert_eq!(NaiveDateTime::from_json(&value.to_json()), Ok(value));
                }
            }
        }
    }
}
