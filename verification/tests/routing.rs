use igloo_kit::local_webserver::{
    ingest_response, no_match_response, options_route, plan_ingest, route_request, HttpMethod,
    IngestPlan, RouteAction,
};
use igloo_kit::route_table::{RouteMeta, RouteTable};

fn table_with_events_route() -> RouteTable {
    let mut table = RouteTable::new();
    let meta = RouteMeta::new(
        "app/ingest/events.ts".to_string(),
        "events".to_string(),
        None,
    );
    table.replace(vec![("ingest/events".to_string(), meta)]);
    table
}

#[test]
fn options_answers_preflight_for_any_path() {
    match route_request(HttpMethod::Options, "/anything/at/all") {
        RouteAction::CorsPreflight => {}
        _ => panic!("OPTIONS must answer the preflight"),
    }
    let r = options_route();
    assert_eq!(r.status, 200);
    assert_eq!(r.body, "Success");
    assert_eq!(r.headers.len(), 3);
    assert_eq!(r.headers[0].0, "Access-Control-Allow-Origin");
    assert_eq!(r.headers[0].1, "*");
    assert_eq!(r.headers[1].1, "POST, OPTIONS");
    assert_eq!(r.headers[2].0, "Access-Control-Allow-Headers");
    assert_eq!(r.headers[2].1, "Content-Type, Baggage, Sentry-Trace");
}

#[test]
fn post_ingest_path_routes_to_ingestion() {
    match route_request(HttpMethod::Post, "/ingest/events") {
        RouteAction::Ingest { route } => assert_eq!(route, "ingest/events"),
        _ => panic!("POST /ingest/<name> must dispatch to ingestion"),
    }
}

#[test]
fn get_console_routes_to_console() {
    match route_request(HttpMethod::Get, "/console") {
        RouteAction::Console => {}
        _ => panic!("GET /console must dispatch to the console"),
    }
}

#[test]
fn unmatched_requests_fall_to_not_found() {
    assert!(matches!(
        route_request(HttpMethod::Get, "/ingest/events"),
        RouteAction::NotFound
    ));
    assert!(matches!(
        route_request(HttpMethod::Post, "/console"),
        RouteAction::NotFound
    ));
    assert!(matches!(
        route_request(HttpMethod::Post, "/ingest"),
        RouteAction::NotFound
    ));
    assert!(matches!(
        route_request(HttpMethod::Post, "/ingest/a/b"),
        RouteAction::NotFound
    ));
    assert!(matches!(
        route_request(HttpMethod::Get, "/console/routes"),
        RouteAction::NotFound
    ));
    assert!(matches!(
        route_request(HttpMethod::Get, "/"),
        RouteAction::NotFound
    ));
    assert!(matches!(
        route_request(HttpMethod::Other, "/console"),
        RouteAction::NotFound
    ));
    let r = no_match_response();
    assert_eq!(r.status, 404);
    assert_eq!(r.body, "visit /console to view your routes");
}

#[test]
fn present_route_publishes_once_to_backing_table() {
    let table = table_with_events_route();
    let body = b"{\"x\":1}".to_vec();
    match plan_ingest(&table, "ingest/events", body.clone()) {
        IngestPlan::Publish {
            topic,
            key,
            payload,
        } => {
            assert_eq!(topic, "events");
            assert_eq!(key, "events");
            assert_eq!(payload, body);
        }
        IngestPlan::NotFound(_) => panic!("a present route must yield the one publish"),
    }
    let ok = ingest_response(true);
    assert_eq!(ok.status, 200);
    assert_eq!(ok.body, "SUCCESS");
}

#[test]
fn absent_route_yields_404_and_no_publish() {
    let table = RouteTable::new();
    match plan_ingest(&table, "ingest/unknown", b"payload".to_vec()) {
        IngestPlan::NotFound(r) => {
            assert_eq!(r.status, 404);
            assert_eq!(r.body, "Please visit /console to view your routes");
        }
        IngestPlan::Publish { .. } => panic!("an absent route must never publish"),
    }
}

#[test]
fn delivery_failure_still_completes_the_exchange() {
    let r = ingest_response(false);
    assert_eq!(r.status, 200);
    assert_eq!(r.body, "Error");
}

#[test]
fn replace_swaps_the_whole_table() {
    let mut table = table_with_events_route();
    assert!(table.lookup("ingest/events").is_some());
    assert!(table.lookup("ingest/users").is_none());

    let meta = RouteMeta::new(
        "app/ingest/users.ts".to_string(),
        "users".to_string(),
        Some("users_view".to_string()),
    );
    table.replace(vec![("ingest/users".to_string(), meta)]);

    assert!(
        table.lookup("ingest/events").is_none(),
        "nothing of the old entry set survives a replace"
    );
    let found = table.lookup("ingest/users").expect("the new entry set is fully visible");
    assert_eq!(found.table_name, "users");
    assert_eq!(found.original_file_path, "app/ingest/users.ts");
    assert_eq!(found.view_name, Some("users_view".to_string()));
}

#[test]
fn snapshot_lists_entries_in_table_order() {
    let mut table = RouteTable::new();
    let a = RouteMeta::new("a.ts".to_string(), "alpha".to_string(), None);
    let b = RouteMeta::new("b.ts".to_string(), "beta".to_string(), None);
    table.replace(vec![
        ("ingest/alpha".to_string(), a),
        ("ingest/beta".to_string(), b),
    ]);
    let snap = table.snapshot();
    assert_eq!(snap.len(), 2);
    assert_eq!(snap[0].0, "ingest/alpha");
    assert_eq!(snap[0].1.table_name, "alpha");
    assert_eq!(snap[1].0, "ingest/beta");
    assert_eq!(snap[1].1.table_name, "beta");
}
