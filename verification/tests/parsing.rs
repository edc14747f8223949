use alrm::opinionated_time_parsing;
use alrm::Field;
use alrm::Time;
use alrm::TimeParseError;

#[test]
fn time_parsing_happy_paths() {
    assert_eq!(opinionated_time_parsing("6").unwrap(), Time::new(6, 0, 0));
    assert_eq!(opinionated_time_parsing("6am").unwrap(), Time::new(6, 0, 0));
    assert_eq!(opinionated_time_parsing("6pm").unwrap(), Time::new(18, 0, 0));
    assert_eq!(opinionated_time_parsing("6 pm").unwrap(), Time::new(18, 0, 0));
    assert_eq!(opinionated_time_parsing("6:30").unwrap(), Time::new(6, 30, 0));
    assert_eq!(opinionated_time_parsing("6:30pm").unwrap(), Time::new(18, 30, 0));
    assert_eq!(opinionated_time_parsing("6:30 pm").unwrap(), Time::new(18, 30, 0));
    assert_eq!(opinionated_time_parsing("6:30:15").unwrap(), Time::new(6, 30, 15));
    assert_eq!(opinionated_time_parsing("6:30:15 pm").unwrap(), Time::new(18, 30, 15));
}

#[test]
fn time_parsing_edge_cases() {
    println!(
        "{}",
        opinionated_time_parsing("").expect_err("test string is empty").render()
    );
    println!(
        "{}",
        opinionated_time_parsing("18:30 pm")
            .expect_err("test string is overconstrained")
            .render()
    );
    println!(
        "{}",
        opinionated_time_parsing("6:306").expect_err("minutes are out of bounds").render()
    );
    println!(
        "{}",
        opinionated_time_parsing("6::6").expect_err("minutes are missing").render()
    );
    println!(
        "{}",
        opinionated_time_parsing("6:0:").expect_err("seconds are missing").render()
    );
    println!(
        "{}",
        opinionated_time_parsing("20:-30")
            .expect_err("negative numbers are not allowed")
            .render()
    );
    println!(
        "{}",
        opinionated_time_parsing("63")
            .expect_err("63 hours is greater than maximum of 23 hours")
            .render()
    );
    println!(
        "{}",
        opinionated_time_parsing("6555")
            .expect_err("6555 hours is greater than maximum of 23 hours")
            .render()
    );
    println!(
        "{}",
        opinionated_time_parsing("hello").expect_err("`hello` is not a time").render()
    );
}

#[test]
fn zero_padded_and_uppercase_forms() {
    assert_eq!(opinionated_time_parsing("06").unwrap(), Time::new(6, 0, 0));
    assert_eq!(opinionated_time_parsing("06:05:09").unwrap(), Time::new(6, 5, 9));
    assert_eq!(opinionated_time_parsing("6:30:15 PM").unwrap(), Time::new(18, 30, 15));
    assert_eq!(opinionated_time_parsing("6Am").unwrap(), Time::new(6, 0, 0));
    assert_eq!(opinionated_time_parsing("18:30").unwrap(), Time::new(18, 30, 0));
    assert_eq!(opinionated_time_parsing("0").unwrap(), Time::new(0, 0, 0));
    assert_eq!(opinionated_time_parsing("23:59:59").unwrap(), Time::new(23, 59, 59));
    assert_eq!(opinionated_time_parsing("6:30:15pm").unwrap(), Time::new(18, 30, 15));
    assert_eq!(opinionated_time_parsing("7:8:9").unwrap(), Time::new(7, 8, 9));
}

#[test]
fn noon_and_midnight_markers() {
    assert_eq!(opinionated_time_parsing("12pm").unwrap(), Time::new(12, 0, 0));
    assert_eq!(opinionated_time_parsing("12am").unwrap(), Time::new(12, 0, 0));
    assert_eq!(opinionated_time_parsing("11pm").unwrap(), Time::new(23, 0, 0));
    assert_eq!(opinionated_time_parsing("12:30 pm").unwrap(), Time::new(12, 30, 0));
}

#[test]
fn empty_input_is_incomplete_overall() {
    let err = opinionated_time_parsing("").unwrap_err();
    match err {
        TimeParseError::IncompleteField(Field::Overall, sec) => {
            assert_eq!(sec.range(), 0..0);
            assert_eq!(sec.text(), "");
        }
        other => panic!("unexpected error: {:?}", other),
    }
}

#[test]
fn explicit_meridiem_with_24_hour_hour_is_overconstrained() {
    let err = opinionated_time_parsing("18:30 pm").unwrap_err();
    match err {
        TimeParseError::Overconstrained { hour, meridiem } => {
            assert_eq!(hour.range(), 0..2);
            assert_eq!(meridiem.range(), 6..8);
            assert_eq!(&hour.text()[hour.range()], "18");
            assert_eq!(&meridiem.text()[meridiem.range()], "pm");
        }
        other => panic!("unexpected error: {:?}", other),
    }
}

#[test]
fn oversized_minute_is_out_of_range() {
    let err = opinionated_time_parsing("6:306").unwrap_err();
    match err {
        TimeParseError::OutOfRange(Field::Minute, sec, bound) => {
            assert_eq!(sec.range(), 2..5);
            assert_eq!(&sec.text()[sec.range()], "306");
            assert_eq!(bound.lo, 0);
            assert_eq!(bound.hi, 60);
        }
        other => panic!("unexpected error: {:?}", other),
    }
}

#[test]
fn empty_minute_before_second_separator_is_incomplete() {
    let err = opinionated_time_parsing("6::6").unwrap_err();
    match err {
        TimeParseError::IncompleteField(Field::Minute, sec) => {
            assert_eq!(sec.range(), 2..2);
        }
        other => panic!("unexpected error: {:?}", other),
    }
}

#[test]
fn empty_second_is_incomplete() {
    let err = opinionated_time_parsing("6:0:").unwrap_err();
    match err {
        TimeParseError::IncompleteField(Field::Second, sec) => {
            assert_eq!(sec.range(), 4..4);
        }
        other => panic!("unexpected error: {:?}", other),
    }
}

#[test]
fn negative_minute_is_rejected() {
    let err = opinionated_time_parsing("20:-30").unwrap_err();
    match err {
        TimeParseError::InvalidFormat(Field::Minute, sec) => {
            assert_eq!(sec.range(), 3..6);
            assert_eq!(&sec.text()[sec.range()], "-30");
        }
        other => panic!("unexpected error: {:?}", other),
    }
}

#[test]
fn oversized_hours_are_out_of_range() {
    let err = opinionated_time_parsing("63").unwrap_err();
    match err {
        TimeParseError::OutOfRange(Field::Hour, sec, bound) => {
            assert_eq!(sec.range(), 0..2);
            assert_eq!(bound.lo, 0);
            assert_eq!(bound.hi, 24);
        }
        other => panic!("unexpected error: {:?}", other),
    }
    let err = opinionated_time_parsing("6555").unwrap_err();
    match err {
        TimeParseError::OutOfRange(Field::Hour, sec, _) => {
            assert_eq!(sec.range(), 0..4);
        }
        other => panic!("unexpected error: {:?}", other),
    }
    assert!(matches!(
        opinionated_time_parsing("24").unwrap_err(),
        TimeParseError::OutOfRange(Field::Hour, _, _)
    ));
}

#[test]
fn unparseable_input_is_invalid_overall() {
    let err = opinionated_time_parsing("hello").unwrap_err();
    match err {
        TimeParseError::InvalidFormat(Field::Overall, sec) => {
            assert_eq!(sec.range(), 0..5);
            assert_eq!(sec.text(), "hello");
        }
        other => panic!("unexpected error: {:?}", other),
    }
}

#[test]
fn unrecognized_trailing_text_is_invalid_meridiem() {
    let err = opinionated_time_parsing("6 foo").unwrap_err();
    match err {
        TimeParseError::InvalidFormat(Field::Meridiem, sec) => {
            assert_eq!(sec.range(), 2..5);
            assert_eq!(&sec.text()[sec.range()], "foo");
        }
        other => panic!("unexpected error: {:?}", other),
    }
}

#[test]
fn minute_at_u32_boundary_distinguishes_range_from_format() {
    assert!(matches!(
        opinionated_time_parsing("6:4294967295").unwrap_err(),
        TimeParseError::OutOfRange(Field::Minute, _, _)
    ));
    assert!(matches!(
        opinionated_time_parsing("6:4294967296").unwrap_err(),
        TimeParseError::InvalidFormat(Field::Minute, _)
    ));
}

#[test]
fn trailing_separator_without_digits_is_incomplete() {
    let err = opinionated_time_parsing("6:").unwrap_err();
    match err {
        TimeParseError::IncompleteField(Field::Minute, sec) => {
            assert_eq!(sec.range(), 2..2);
        }
        other => panic!("unexpected error: {:?}", other),
    }
}

#[test]
fn trailing_whitespace_alone_is_no_meridiem() {
    assert_eq!(opinionated_time_parsing("6 ").unwrap(), Time::new(6, 0, 0));
}
