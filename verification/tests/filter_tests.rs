use hubuum_client::filter::{parse_query_string, DataType, FilterOperator, QueryFilter};
use hubuum_client::IntoQueryTuples;

fn qf(key: &str, op: FilterOperator, value: &str) -> QueryFilter {
    QueryFilter { key: key.to_string(), value: value.to_string(), operator: op }
}

#[test]
fn equality_filter_serializes_to_expected_fragment() {
    let f = qf("username", FilterOperator::Equals { is_negated: false }, "alice");
    assert_eq!(f.fragment(), "username__equals=alice");
}

#[test]
fn negated_equality_filter_serializes_with_not_prefix() {
    let f = qf("username", FilterOperator::Equals { is_negated: true }, "alice");
    assert_eq!(f.fragment(), "username__not_equals=alice");
}

#[test]
fn operator_tokens_are_lowercase_names() {
    assert_eq!(FilterOperator::Gt { is_negated: false }.token(), "gt");
    assert_eq!(FilterOperator::Between { is_negated: true }.token(), "not_between");
    assert_eq!(FilterOperator::IContains { is_negated: false }.token(), "icontains");
}

#[test]
fn into_tuples_escapes_spaces() {
    let f = qf("name", FilterOperator::Contains { is_negated: false }, "web server");
    let (key, op, value) = f.into_tuples();
    assert_eq!(key, "name");
    assert_eq!(op, "contains");
    assert_eq!(value, "web%20server");
}

#[test]
fn filters_join_with_ampersand_in_insertion_order() {
    let v = vec![
        qf("a", FilterOperator::Equals { is_negated: false }, "1"),
        qf("b", FilterOperator::Gt { is_negated: false }, "2"),
        qf("c", FilterOperator::Like { is_negated: true }, "x y"),
    ];
    assert_eq!(v.into_query_string(), "a__equals=1&b__gt=2&c__not_like=x%20y");
}

#[test]
fn empty_filter_list_serializes_to_empty_string() {
    let v: Vec<QueryFilter> = vec![];
    assert_eq!(v.into_query_string(), "");
}

#[test]
fn round_trip_recovers_filters_in_order() {
    let v = vec![
        qf("username", FilterOperator::Equals { is_negated: false }, "alice"),
        qf("age", FilterOperator::Gte { is_negated: true }, "30"),
        qf("note", FilterOperator::IContains { is_negated: false }, "hello world"),
    ];
    let encoded = v.clone().into_query_string();
    let parsed = parse_query_string(&encoded).expect("the query string must parse");
    assert_eq!(parsed, v);
}

#[test]
fn round_trip_of_empty_query_recovers_nothing() {
    let parsed = parse_query_string("").unwrap();
    assert!(parsed.is_empty());
}

#[test]
fn fragment_without_equals_sign_does_not_parse() {
    assert!(parse_query_string("justakey").is_none());
}

#[test]
fn unknown_operator_token_does_not_parse() {
    assert!(parse_query_string("a__almost=1").is_none());
}

#[test]
fn keys_with_underscores_parse_back() {
    let v = vec![qf("created_at", FilterOperator::Lt { is_negated: false }, "2020-01-01")];
    let encoded = v.clone().into_query_string();
    assert_eq!(encoded, "created_at__lt=2020-01-01");
    assert_eq!(parse_query_string(&encoded).unwrap(), v);
}

#[test]
fn equality_applies_to_every_data_type() {
    let op = FilterOperator::Equals { is_negated: true };
    for dt in [DataType::Text, DataType::NumericOrDate, DataType::Boolean, DataType::Array] {
        assert!(op.is_applicable_to(dt));
    }
}

#[test]
fn comparisons_require_numeric_or_date() {
    let op = FilterOperator::Gt { is_negated: false };
    assert!(op.is_applicable_to(DataType::NumericOrDate));
    assert!(!op.is_applicable_to(DataType::Text));
    assert!(!op.is_applicable_to(DataType::Array));
}

#[test]
fn contains_applies_to_text_and_arrays() {
    let op = FilterOperator::Contains { is_negated: false };
    assert!(op.is_applicable_to(DataType::Text));
    assert!(op.is_applicable_to(DataType::Array));
    assert!(!op.is_applicable_to(DataType::Boolean));
}

#[test]
fn pattern_operators_require_text() {
    let op = FilterOperator::IContains { is_negated: false };
    assert!(op.is_applicable_to(DataType::Text));
    assert!(!op.is_applicable_to(DataType::Array));
    let op = FilterOperator::Regex { is_negated: true };
    assert!(op.is_applicable_to(DataType::Text));
    assert!(!op.is_applicable_to(DataType::NumericOrDate));
}

#[test]
fn values_percent_escape_reserved_characters() {
    let f = qf("note", FilterOperator::Equals { is_negated: false }, "a&b=c d%");
    let (_, _, value) = f.into_tuples();
    assert_eq!(value, "a%26b%3Dc%20d%25");
    assert_eq!(f.fragment(), "note__equals=a%26b%3Dc%20d%25");
}

#[test]
fn round_trip_recovers_values_with_delimiters() {
    let v = vec![
        qf("a", FilterOperator::Equals { is_negated: false }, "x&y=z"),
        qf("b", FilterOperator::Like { is_negated: false }, "100%20 real"),
    ];
    let encoded = v.clone().into_query_string();
    assert_eq!(parse_query_string(&encoded).unwrap(), v);
}
