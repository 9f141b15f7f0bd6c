use cloudapps::cli::alerts::{CloseArgs, ListArgs as AlertListArgs};
use cloudapps::cli::activities::ListArgs as ActivityListArgs;
use cloudapps::cli::data_enrichment::{CreateArgs, ListArgs as SubnetListArgs, UpdateArgs};
use cloudapps::cli::entities::ListArgs as EntityListArgs;
use cloudapps::cli::files::ListArgs as FileListArgs;
use cloudapps::cli::policies::{FetchArgs, PolicyType};
use cloudapps::commands::listing::{all_response, json_data};
use cloudapps::commands::{activities, alerts, data_enrichment, entities, files, policies};
use cloudapps::error::AppError;
use cloudapps::json::JsonValue;
use cloudapps::models::filter::{FilterCondition, FilterRequest};

fn s(x: &str) -> JsonValue {
    JsonValue::Str(x.to_string())
}

fn obj(members: Vec<(&str, JsonValue)>) -> JsonValue {
    JsonValue::Object(members.into_iter().map(|(k, v)| (k.to_string(), v)).collect())
}

fn cond<'a>(f: &'a FilterRequest, field: &str) -> Option<&'a FilterCondition> {
    f.filters.iter().find(|(k, _)| k == field).map(|(_, c)| c)
}

fn single(c: &FilterCondition) -> (&str, &JsonValue) {
    let m = c.members();
    assert_eq!(m.len(), 1);
    (m[0].0.as_str(), &m[0].1)
}

fn invalid_input(r: Result<FilterRequest, AppError>) -> String {
    match r {
        Err(AppError::InvalidInput(m)) => m,
        Err(e) => panic!("unexpected error {}", e.message()),
        Ok(_) => panic!("expected an error"),
    }
}

fn alert_args() -> AlertListArgs {
    AlertListArgs {
        limit: None,
        skip: None,
        all: false,
        filter: None,
        severity: None,
        resolution: None,
        open: false,
        closed: false,
        query: None,
    }
}

#[test]
fn alerts_list_filter_maps_options() {
    let mut args = alert_args();
    args.limit = Some(10);
    args.skip = Some(5);
    args.severity = Some("High".to_string());
    args.resolution = Some("open".to_string());
    args.open = true;
    args.closed = true;
    args.query = Some("failed login".to_string());
    let f = alerts::list_filter(&args, None).unwrap();
    assert_eq!(f.limit, Some(10));
    assert_eq!(f.skip, Some(5));
    assert_eq!(single(cond(&f, "severity").unwrap()), ("eq", &JsonValue::Array(vec![JsonValue::Int(2)])));
    assert_eq!(single(cond(&f, "resolutionStatus").unwrap()), ("eq", &JsonValue::Array(vec![JsonValue::Int(0)])));
    assert_eq!(single(cond(&f, "alertOpen").unwrap()), ("eq", &JsonValue::Bool(false)));
    assert_eq!(single(cond(&f, "text").unwrap()), ("text", &s("failed login")));
    assert_eq!(f.filters.len(), 4);
}

#[test]
fn alerts_list_rejects_unknown_words_in_order() {
    let mut args = alert_args();
    args.severity = Some("urgent".to_string());
    args.resolution = Some("bogus".to_string());
    assert_eq!(invalid_input(alerts::list_filter(&args, None)), "unknown severity: urgent");
    args.severity = None;
    assert_eq!(invalid_input(alerts::list_filter(&args, None)), "unknown resolution status: bogus");
    args.resolution = None;
    assert_eq!(
        invalid_input(alerts::list_filter(&args, Some(Err("expected value at line 1 column 1".to_string())))),
        "expected value at line 1 column 1"
    );
}

#[test]
fn raw_filter_is_merged_without_paging_keys() {
    let mut args = alert_args();
    args.open = true;
    let raw = obj(vec![
        ("alertOpen", obj(vec![("eq", JsonValue::Bool(false))])),
        ("skip", obj(vec![("eq", JsonValue::Int(1))])),
        ("limit", JsonValue::Int(3)),
        ("notAnObject", JsonValue::Int(3)),
        ("entity.user", obj(vec![("eq", JsonValue::Array(vec![s("bob")]))])),
    ]);
    let f = alerts::list_filter(&args, Some(Ok(raw))).unwrap();
    assert_eq!(f.skip, None);
    assert_eq!(f.limit, None);
    assert_eq!(single(cond(&f, "alertOpen").unwrap()), ("eq", &JsonValue::Bool(false)));
    assert!(cond(&f, "skip").is_none());
    assert!(cond(&f, "limit").is_none());
    assert!(cond(&f, "notAnObject").is_none());
    assert_eq!(single(cond(&f, "entity.user").unwrap()), ("eq", &JsonValue::Array(vec![s("bob")])));
}

#[test]
fn activities_named_options_override_the_raw_filter() {
    let args = ActivityListArgs {
        limit: None,
        skip: None,
        all: false,
        filter: None,
        user: Some("alice".to_string()),
        ip: Some("10.0.0.1".to_string()),
        country: None,
        query: None,
    };
    let raw = obj(vec![("user.username", obj(vec![("eq", JsonValue::Array(vec![s("mallory")]))]))]);
    let f = activities::list_filter(&args, Some(Ok(raw))).unwrap();
    assert_eq!(single(cond(&f, "user.username").unwrap()), ("eq", &JsonValue::Array(vec![s("alice")])));
    assert_eq!(single(cond(&f, "ip.address").unwrap()), ("eq", &JsonValue::Array(vec![s("10.0.0.1")])));
    assert!(matches!(activities::list_filter(&args, Some(Err("bad".to_string()))), Err(AppError::InvalidInput(_))));
}

#[test]
fn entities_list_filter() {
    let args = EntityListArgs {
        limit: None,
        skip: None,
        all: false,
        filter: None,
        entity_type: Some("user".to_string()),
        is_admin: true,
        is_external: true,
        domain: None,
        status: Some("ACTIVE".to_string()),
    };
    let f = entities::list_filter(&args, None).unwrap();
    assert_eq!(single(cond(&f, "isAdmin").unwrap()), ("eq", &JsonValue::Array(vec![s("true")])));
    assert_eq!(single(cond(&f, "isExternal").unwrap()), ("eq", &JsonValue::Bool(true)));
    assert_eq!(single(cond(&f, "status").unwrap()), ("eq", &JsonValue::Array(vec![JsonValue::Int(2)])));
    let mut bad = args;
    bad.status = Some("gone".to_string());
    assert_eq!(invalid_input(entities::list_filter(&bad, None)), "unknown status: gone");
}

#[test]
fn files_list_filter() {
    let args = FileListArgs {
        limit: Some(1),
        skip: None,
        all: false,
        filter: None,
        service: Some(11161),
        filetype: Some("doc".to_string()),
        filename: None,
        extension: Some("pdf".to_string()),
        sharing: Some("external".to_string()),
    };
    let f = files::list_filter(&args, None).unwrap();
    assert_eq!(single(cond(&f, "service").unwrap()), ("eq", &JsonValue::Array(vec![JsonValue::Int(11161)])));
    assert_eq!(single(cond(&f, "extension").unwrap()), ("eq", &JsonValue::Array(vec![s("pdf")])));
    let mut bad = args;
    bad.filetype = Some("movie".to_string());
    bad.sharing = Some("everyone".to_string());
    assert_eq!(invalid_input(files::list_filter(&bad, None)), "unknown file type: movie");
    bad.filetype = None;
    assert_eq!(invalid_input(files::list_filter(&bad, None)), "unknown sharing level: everyone");
}

#[test]
fn data_enrichment_list_validates_category() {
    let args = SubnetListArgs {
        limit: None,
        skip: None,
        all: false,
        filter: None,
        category: Some("nope".to_string()),
        tag: None,
        builtin: false,
        custom: true,
    };
    match data_enrichment::list_filter(&args) {
        Err(AppError::InvalidInput(m)) => assert_eq!(m, "unknown category: nope"),
        _ => panic!("expected invalid input"),
    }
    let mut ok = args;
    ok.category = Some("vpn".to_string());
    let f = data_enrichment::list_filter(&ok).unwrap();
    assert_eq!(single(cond(&f, "builtIn").unwrap()), ("eq", &JsonValue::Bool(false)));
    assert_eq!(data_enrichment::list_path(), "/api/subnet/");
}

#[test]
fn alerts_table_renders_rows() {
    let resp = obj(vec![(
        "data",
        JsonValue::Array(vec![obj(vec![
            ("_id", s("0123456789abcdef")),
            ("title", s("Impossible travel")),
            ("severityValue", JsonValue::Int(2)),
            ("resolutionStatusValue", JsonValue::Int(0)),
            ("timestamp", JsonValue::Int(1700000000000)),
        ])]),
    )]);
    let lines = alerts::table(&resp);
    assert_eq!(lines.len(), 2);
    assert_eq!(
        lines[0].as_deref(),
        Some("ID             TITLE                                    SEVERITY        RESOLUTION       TIMESTAMP               ")
    );
    let row = lines[1].clone().unwrap();
    assert!(row.starts_with("012345678...   Impossible travel"));
    assert!(row.contains("HIGH"));
    assert!(row.contains("OPEN"));
    assert!(row.contains("2023-11-14T22:13:20Z"));
}

#[test]
fn tables_mark_cells_that_would_split_a_character() {
    let resp = obj(vec![("data", JsonValue::Array(vec![obj(vec![("title", s(&"\u{e9}".repeat(30)))])]))]);
    let lines = alerts::table(&resp);
    assert_eq!(lines.len(), 2);
    assert_eq!(lines[1], None);
    let empty = alerts::table(&obj(vec![]));
    assert_eq!(empty.len(), 1);
}

#[test]
fn activities_table_uses_nested_fields() {
    let resp = obj(vec![(
        "data",
        JsonValue::Array(vec![obj(vec![
            ("user", obj(vec![("userName", s("alice@example.com"))])),
            ("actionType", s("Login")),
            ("location", obj(vec![("country", s("JP"))])),
        ])]),
    )]);
    let lines = activities::table(&resp);
    let row = lines[1].clone().unwrap();
    assert!(row.starts_with("-                        alice@example.com"));
    assert!(row.ends_with("JP    "));
}

#[test]
fn policies_table_reads_a_bare_array() {
    let resp = JsonValue::Array(vec![obj(vec![
        ("_id", s("p1")),
        ("policyType", s("ANOMALY_DETECTION")),
        ("enabled", JsonValue::Bool(true)),
        ("name", s("Impossible travel")),
    ])]);
    let lines = policies::table(&resp);
    assert_eq!(lines.len(), 2);
    let row = lines[1].clone().unwrap();
    assert!(row.starts_with("p1                         ANOMALY...   true       Impossible travel"));
}

#[test]
fn subnet_table_joins_subnets() {
    let resp = JsonValue::Array(vec![obj(vec![
        ("_id", s("r1")),
        ("name", s("Office")),
        ("subnets", JsonValue::Array(vec![obj(vec![("originalString", s("10.0.0.0/8"))]), s("192.168.0.0/16"), JsonValue::Int(1)])),
        ("category", JsonValue::Int(1)),
    ])]);
    let lines = data_enrichment::table(&resp);
    let row = lines[1].clone().unwrap();
    assert!(row.contains("10.0.0.0/8, 192.168.0.0/16"));
    assert!(row.contains("CORPORATE"));
}

#[test]
fn close_request_body_and_path() {
    let args = CloseArgs {
        ids: vec!["a1".to_string(), "a2".to_string()],
        close_as: "false-positive".to_string(),
        comment: Some("checked".to_string()),
    };
    let (path, body) = alerts::close_request(&args).unwrap();
    assert_eq!(path, "/api/v1/alerts/close_false_positive/");
    assert_eq!(
        body,
        obj(vec![
            ("filters", obj(vec![("id", obj(vec![("eq", JsonValue::Array(vec![s("a1"), s("a2")]))]))])),
            ("comment", s("checked")),
        ])
    );
    let bad = CloseArgs { ids: vec![], close_as: "fine".to_string(), comment: None };
    match alerts::close_request(&bad) {
        Err(AppError::InvalidInput(m)) => {
            assert_eq!(m, "unknown close type: fine. Use: benign, false-positive, true-positive")
        }
        _ => panic!("expected invalid input"),
    }
}

#[test]
fn paths_of_single_resources() {
    assert_eq!(alerts::fetch_path("x1"), "/api/v1/alerts/x1/");
    assert_eq!(activities::fetch_path("a"), "/api/v1/activities/a/");
    assert_eq!(entities::fetch_path("e"), "/api/v1/entities/e/");
    assert_eq!(entities::fetch_tree_path("e"), "/api/v1/entities/e/tree/");
    assert_eq!(files::fetch_path("f"), "/api/v1/files/f/");
    let (p, m) = alerts::bulk_action_step("x1", "read");
    assert_eq!(p, "/api/v1/alerts/x1/read/");
    assert_eq!(m, "Marked alert x1 as read");
    let (p, m) = data_enrichment::delete_step("r9");
    assert_eq!(p, "/api/subnet/r9/");
    assert_eq!(m, "Deleted IP range r9");
    let fetch = FetchArgs { policy_type: PolicyType::DiscoveryAnomaly, id: "7".to_string() };
    assert_eq!(policies::fetch_path(&fetch), "/api/v1/policy/discovery_anomaly/7/");
}

#[test]
fn test_policy_type_api_path_segment() {
    assert_eq!(PolicyType::Activity.api_path_segment(), "activity");
    assert_eq!(PolicyType::Anomaly.api_path_segment(), "anomaly");
    assert_eq!(PolicyType::Discovery.api_path_segment(), "discovery");
    assert_eq!(PolicyType::DiscoveryAnomaly.api_path_segment(), "discovery_anomaly");
    assert_eq!(PolicyType::File.api_path_segment(), "file");
    assert_eq!(PolicyType::AppPermissions.api_path_segment(), "app_permissions");
    assert_eq!(PolicyType::Session.api_path_segment(), "session");
}

#[test]
fn test_policy_type_display() {
    assert_eq!(PolicyType::Activity.as_str(), "activity");
    assert_eq!(PolicyType::Anomaly.as_str(), "anomaly");
    assert_eq!(PolicyType::DiscoveryAnomaly.as_str(), "discovery_anomaly");
    assert_eq!(PolicyType::AppPermissions.as_str(), "app_permissions");
}

#[test]
fn create_and_update_bodies() {
    let args = CreateArgs {
        name: "Office".to_string(),
        subnets: "10.0.0.0/8, 192.168.1.0/24".to_string(),
        category: "corporate".to_string(),
        organization: None,
        tags: Some("a, b".to_string()),
    };
    let body = data_enrichment::create_body(&args).unwrap();
    assert_eq!(
        body,
        obj(vec![
            ("name", s("Office")),
            ("subnets", JsonValue::Array(vec![s("10.0.0.0/8"), s("192.168.1.0/24")])),
            ("category", JsonValue::Int(1)),
            ("organization", JsonValue::Null),
            ("tags", JsonValue::Array(vec![s("a"), s("b")])),
        ])
    );
    let up = UpdateArgs {
        id: "r1".to_string(),
        name: None,
        subnets: Some("1.1.1.1/32".to_string()),
        category: None,
        organization: Some("Acme".to_string()),
    };
    let (path, body) = data_enrichment::update_request(&up).unwrap();
    assert_eq!(path, "/api/subnet/r1/update_rule/");
    assert_eq!(
        body,
        obj(vec![("subnets", JsonValue::Array(vec![s("1.1.1.1/32")])), ("organization", s("Acme"))])
    );
    let bad = UpdateArgs { category: Some("x".to_string()), ..up };
    assert!(matches!(data_enrichment::update_request(&bad), Err(AppError::InvalidInput(_))));
}

#[test]
fn json_output_selects_data_unless_raw() {
    let resp = obj(vec![("data", JsonValue::Array(vec![JsonValue::Int(1)])), ("total", JsonValue::Int(1))]);
    assert_eq!(json_data(&resp, false), &JsonValue::Array(vec![JsonValue::Int(1)]));
    assert_eq!(json_data(&resp, true), &resp);
    let bare = JsonValue::Array(vec![]);
    assert_eq!(json_data(&bare, false), &bare);
    assert_eq!(
        all_response(vec![s("a"), s("b")]),
        obj(vec![("data", JsonValue::Array(vec![s("a"), s("b")])), ("total", JsonValue::Int(2))])
    );
}

#[test]
fn alert_activities_filter_and_combined_output() {
    let f = alerts::activities_filter("al1");
    assert_eq!(single(cond(&f, "activity.alertId").unwrap()), ("eq", &s("al1")));
    let combined = alerts::with_activities(obj(vec![("_id", s("al1"))]), vec![s("x")]);
    assert_eq!(
        combined,
        obj(vec![("alert", obj(vec![("_id", s("al1"))])), ("activities", JsonValue::Array(vec![s("x")]))])
    );
}
