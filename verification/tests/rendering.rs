use alrm::opinionated_time_parsing;
use alrm::Field;
use alrm::StringSection;
use alrm::TimeParseError;

#[test]
fn rendering_is_idempotent() {
    let inputs = ["", "18:30 pm", "6:306", "6::6", "6:0:", "20:-30", "63", "6555", "hello"];
    for input in inputs {
        let err = opinionated_time_parsing(input).unwrap_err();
        assert_eq!(err.render(), err.render());
    }
}

#[test]
fn rendering_reports_the_failure_not_the_input() {
    let err = opinionated_time_parsing("18:30 pm").unwrap_err();
    let report = err.render();
    assert_ne!(report, "18:30 pm");
    assert!(report.contains("Time is overconstrained"));
    assert!(report.contains("this is already 24-hour"));
    assert!(report.contains("so this is too much information"));

    let err = opinionated_time_parsing("63").unwrap_err();
    let report = err.render();
    assert!(report.contains("hour field is out of range"));
    assert!(report.contains("this is not in the proper range (0..24) for hour"));

    let err = opinionated_time_parsing("hello").unwrap_err();
    let report = err.render();
    assert!(report.contains("Invalid format"));
    assert!(report.contains("expected a time"));
    assert!(report.contains("could not make sense of this"));

    let err = opinionated_time_parsing("6::6").unwrap_err();
    let report = err.render();
    assert!(report.contains("minute field is incomplete"));
    assert!(report.contains("minute is missing"));

    let err = opinionated_time_parsing("").unwrap_err();
    let report = err.render();
    assert!(report.contains("Expected time, instead got empty string"));
}

#[test]
fn error_accessors_replay_the_captured_spans() {
    let err = opinionated_time_parsing("6:306").unwrap_err();
    assert_eq!(err.text(), "6:306");
    assert_eq!(err.index(), 2);

    let err = opinionated_time_parsing("18:30 pm").unwrap_err();
    assert_eq!(err.text(), "18:30 pm");
    assert_eq!(err.index(), 6);
}

#[test]
fn field_names_label_the_diagnostics() {
    assert_eq!(Field::Overall.name(), "overall");
    assert_eq!(Field::Hour.name(), "hour");
    assert_eq!(Field::Minute.name(), "minute");
    assert_eq!(Field::Second.name(), "second");
    assert_eq!(Field::Meridiem.name(), "am/pm");
}

#[test]
fn sections_keep_their_text_and_range() {
    let sec = StringSection::new("6:30 pm", 5..7);
    assert_eq!(sec.range(), 5..7);
    assert_eq!(sec.text(), "6:30 pm");
    assert_eq!(&sec.text()[sec.range()], "pm");
}

#[test]
fn hand_built_errors_render_like_parser_errors() {
    let err = TimeParseError::InvalidFormat(Field::Second, StringSection::new("6:30:xx", 5..7));
    let report = err.render();
    assert!(report.contains("second has invalid format"));
    assert_eq!(report, err.render());
}
