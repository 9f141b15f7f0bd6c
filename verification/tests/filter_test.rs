use cloudapps::commands::listing::merge_raw_filter;
use cloudapps::json::JsonValue;
use cloudapps::models::filter::{FilterCondition, FilterRequest};

fn s(x: &str) -> JsonValue {
    JsonValue::Str(x.to_string())
}

fn members(c: &FilterCondition) -> Vec<(String, &JsonValue)> {
    c.members().iter().map(|(k, v)| (k.clone(), v)).collect()
}

#[test]
fn test_filter_eq() {
    let condition = FilterCondition::eq(vec![s("value1"), s("value2")]);
    assert_eq!(members(&condition), vec![("eq".to_string(), &JsonValue::Array(vec![s("value1"), s("value2")]))]);
}

#[test]
fn test_filter_gte() {
    let condition = FilterCondition::gte(JsonValue::Int(1700000000000));
    assert_eq!(members(&condition), vec![("gte".to_string(), &JsonValue::Int(1700000000000))]);
}

#[test]
fn test_filter_gte_ndays() {
    let condition = FilterCondition::gte_ndays(7);
    assert_eq!(members(&condition), vec![("gte_ndays".to_string(), &JsonValue::Int(7))]);
}

#[test]
fn test_filter_text() {
    let condition = FilterCondition::text("failed login");
    assert_eq!(members(&condition), vec![("text".to_string(), &s("failed login"))]);
}

#[test]
fn test_filter_request_serialization() {
    let mut req = FilterRequest::new().with_skip(5).with_limit(10);
    req.add_filter("severity", FilterCondition::eq(vec![JsonValue::Int(2)]));
    req.add_filter("alertOpen", FilterCondition::eq_bool(true));
    assert_eq!(req.skip, Some(5));
    assert_eq!(req.limit, Some(10));
    assert_eq!(req.filters.len(), 2);
    assert_eq!(req.filters[0].0, "severity");
    assert_eq!(members(&req.filters[0].1), vec![("eq".to_string(), &JsonValue::Array(vec![JsonValue::Int(2)]))]);
    assert_eq!(req.filters[1].0, "alertOpen");
    assert_eq!(members(&req.filters[1].1), vec![("eq".to_string(), &JsonValue::Bool(true))]);
}

#[test]
fn test_empty_filter_request() {
    let req = FilterRequest::new();
    assert!(req.is_empty());
}

#[test]
fn add_filter_replaces_the_field() {
    let mut req = FilterRequest::new();
    req.add_filter("alertOpen", FilterCondition::eq_bool(true));
    req.add_filter("text", FilterCondition::text("x"));
    req.add_filter("alertOpen", FilterCondition::eq_bool(false));
    assert_eq!(req.filters.len(), 2);
    assert_eq!(req.filters[0].0, "alertOpen");
    assert_eq!(members(&req.filters[0].1), vec![("eq".to_string(), &JsonValue::Bool(false))]);
    assert!(!req.is_empty());
    assert!(!FilterRequest::new().with_limit(1).is_empty());
}

#[test]
fn other_operators() {
    assert_eq!(
        members(&FilterCondition::neq(vec![JsonValue::Int(1)])),
        vec![("neq".to_string(), &JsonValue::Array(vec![JsonValue::Int(1)]))]
    );
    assert_eq!(members(&FilterCondition::lte(JsonValue::Int(3))), vec![("lte".to_string(), &JsonValue::Int(3))]);
    assert_eq!(
        members(&FilterCondition::contains(vec!["a".to_string()])),
        vec![("contains".to_string(), &JsonValue::Array(vec![s("a")]))]
    );
    assert_eq!(
        members(&FilterCondition::startswith(vec!["a".to_string(), "b".to_string()])),
        vec![("startswith".to_string(), &JsonValue::Array(vec![s("a"), s("b")]))]
    );
    assert_eq!(
        members(&FilterCondition::raw("eq".to_string(), s("id"))),
        vec![("eq".to_string(), &s("id"))]
    );
    assert_eq!(
        members(&FilterCondition::gte_ndays(u64::MAX)),
        vec![("gte_ndays".to_string(), &JsonValue::UInt(u64::MAX))]
    );
}

#[test]
fn raw_filter_on_a_present_field_keeps_one_entry_per_field() {
    let mut req = FilterRequest::new();
    req.add_filter("text", FilterCondition::text("a"));
    let cond = || JsonValue::Object(vec![("eq".to_string(), s("b"))]);
    merge_raw_filter(&mut req, JsonValue::Object(vec![("text".to_string(), cond()), ("user".to_string(), cond())]));
    let keys: Vec<&str> = req.filters.iter().map(|(k, _)| k.as_str()).collect();
    assert_eq!(keys, vec!["text", "user"]);
    assert_eq!(members(&req.filters[0].1), vec![("eq".to_string(), &s("b"))]);
}
