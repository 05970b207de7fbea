use igloo_kit::local_webserver::{console_payload, console_route, RouteInfo};
use igloo_kit::route_table::{RouteMeta, RouteTable};

#[test]
fn console_carries_all_three_keys_when_everything_is_empty() {
    let table = RouteTable::new();
    let r = console_route(&table, &Vec::new(), &Vec::new());
    assert_eq!(r.status, 200);
    let v: serde_json::Value = serde_json::from_str(&r.body).expect("the payload is valid JSON");
    let obj = v.as_object().expect("the payload is one object");
    assert!(obj.contains_key("tables"));
    assert!(obj.contains_key("topics"));
    assert!(obj.contains_key("routes"));
    assert_eq!(v["tables"].as_array().unwrap().len(), 0);
    assert_eq!(v["topics"].as_array().unwrap().len(), 0);
    assert_eq!(v["routes"].as_array().unwrap().len(), 0);
}

#[test]
fn console_aggregates_tables_topics_and_routes() {
    let mut table = RouteTable::new();
    table.replace(vec![
        (
            "ingest/events".to_string(),
            RouteMeta::new("app/events.ts".to_string(), "events".to_string(), None),
        ),
        (
            "ingest/users".to_string(),
            RouteMeta::new(
                "app/users.ts".to_string(),
                "users".to_string(),
                Some("users_view".to_string()),
            ),
        ),
    ]);
    let tables = vec!["events".to_string(), "users".to_string()];
    let topics = vec!["events".to_string()];
    let r = console_route(&table, &tables, &topics);
    assert_eq!(r.status, 200);
    let cors: Vec<(String, String)> = r.headers;
    assert_eq!(cors[1].1, "GET");

    let v: serde_json::Value = serde_json::from_str(&r.body).unwrap();
    assert_eq!(v["tables"][0], "events");
    assert_eq!(v["tables"][1], "users");
    assert_eq!(v["topics"][0], "events");
    let routes = v["routes"].as_array().unwrap();
    assert_eq!(routes.len(), 2);
    assert_eq!(routes[0]["route_path"], "ingest/events");
    assert_eq!(routes[0]["file_path"], "app/events.ts");
    assert_eq!(routes[0]["table_name"], "events");
    assert!(
        routes[0].get("view_name").is_none(),
        "a route without a materialized view has no view_name key"
    );
    assert_eq!(routes[1]["route_path"], "ingest/users");
    assert_eq!(routes[1]["view_name"], "users_view");
}

#[test]
fn console_escapes_route_and_table_text() {
    let routes = vec![RouteInfo::new(
        "ingest/we\"ird".to_string(),
        "a\\b\nc\td\re".to_string(),
        "ta\u{01}ble".to_string(),
        Some("vi\"ew".to_string()),
    )];
    let tables = vec!["plain".to_string(), "qu\"ote".to_string()];
    let body = console_payload(&tables, &Vec::new(), &routes);
    let v: serde_json::Value = serde_json::from_str(&body).expect("escaping keeps the JSON valid");
    assert_eq!(v["tables"][1], "qu\"ote");
    assert_eq!(v["routes"][0]["route_path"], "ingest/we\"ird");
    assert_eq!(v["routes"][0]["file_path"], "a\\b\nc\td\re");
    assert_eq!(v["routes"][0]["table_name"], "ta\u{01}ble");
    assert_eq!(v["routes"][0]["view_name"], "vi\"ew");
}
