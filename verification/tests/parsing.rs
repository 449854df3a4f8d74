use cube_service::route::AggregateRoute;
use cube_service::route::FormatType;

#[test]
fn parse_plain_verb_defaults_to_csv() {
    let r = AggregateRoute::from_str("aggregate").unwrap();
    assert_eq!(r.format_type, FormatType::Csv);
}

#[test]
fn parse_explicit_csv() {
    let r = AggregateRoute::from_str("aggregate.csv").unwrap();
    assert_eq!(r.format_type, FormatType::Csv);
}

#[test]
fn parse_jsonrecords() {
    let r = AggregateRoute::from_str("aggregate.jsonrecords").unwrap();
    assert_eq!(r.format_type, FormatType::JsonRecords);
}

#[test]
fn parse_unknown_format_fails_with_token_in_message() {
    let e = AggregateRoute::from_str("aggregate.xml").unwrap_err();
    assert!(e.message().contains("xml"));
    assert_eq!(e.message().as_str(), "format \"xml\" not supported");
}

#[test]
fn parse_wrong_verb_fails() {
    let e = AggregateRoute::from_str("bogus.csv").unwrap_err();
    assert_eq!(e.message().as_str(), "");
}

#[test]
fn parse_empty_verb_fails() {
    assert!(AggregateRoute::from_str(".csv").is_err());
    assert!(AggregateRoute::from_str("").is_err());
}

#[test]
fn parse_trailing_dot_fails_with_empty_token() {
    let e = AggregateRoute::from_str("aggregate.").unwrap_err();
    assert_eq!(e.message().as_str(), "format \"\" not supported");
}

#[test]
fn parse_takes_suffix_after_first_dot_verbatim() {
    let e = AggregateRoute::from_str("aggregate.csv.x").unwrap_err();
    assert_eq!(e.message().as_str(), "format \"csv.x\" not supported");
}

#[test]
fn format_from_str_vocabulary() {
    assert_eq!(FormatType::from_str("csv").unwrap(), FormatType::Csv);
    assert_eq!(
        FormatType::from_str("jsonrecords").unwrap(),
        FormatType::JsonRecords
    );
    let e = FormatType::from_str("xml").unwrap_err();
    assert_eq!(e, "format \"xml\" not supported");
}

#[test]
fn format_parsing_is_case_sensitive() {
    assert!(FormatType::from_str("CSV").is_err());
    assert!(FormatType::from_str("Csv").is_err());
}

#[test]
fn format_default_is_csv() {
    assert_eq!(FormatType::default(), FormatType::Csv);
}

#[test]
fn format_tokens() {
    assert_eq!(FormatType::Csv.token(), "csv");
    assert_eq!(FormatType::JsonRecords.token(), "jsonrecords");
}
