use igloo_kit::display::{Message, MessageType};
use igloo_kit::local_webserver::{LocalWebserverConfig, Webserver};
use igloo_kit::logger::{default_log_file, default_log_level, LoggerLevel, LoggerSettings};
use igloo_kit::project::{parse_path, Project, SupportedLanguages};
use igloo_kit::text::{contains_str, join_path, normalize_path, parent_of, split_str, str_eq, u16_to_dec};
use igloo_kit::validate::{
    validate_clickhouse_run, validate_panda_house_network, validate_red_panda_cluster,
    validate_red_panda_run,
};

#[test]
fn contains_finds_substrings() {
    assert!(contains_str("NAMES\nredpanda-1 running", "redpanda-1"));
    assert!(contains_str("abc", ""));
    assert!(contains_str("abc", "abc"));
    assert!(!contains_str("redpanda", "redpanda-1"));
    assert!(!contains_str("", "a"));
    assert!(!contains_str("abab", "aba-"));
}

#[test]
fn split_and_normalize_break_paths_into_segments() {
    assert_eq!(normalize_path("/ingest/events"), "ingest/events");
    assert_eq!(normalize_path("ingest/events"), "ingest/events");
    assert_eq!(normalize_path(""), "");
    assert_eq!(split_str("ingest/events", '/'), vec!["ingest", "events"]);
    assert_eq!(split_str("console", '/'), vec!["console"]);
    assert_eq!(split_str("", '/'), vec![""]);
    assert_eq!(split_str("a//b", '/'), vec!["a", "", "b"]);
    assert_eq!(split_str("ingest/", '/'), vec!["ingest", ""]);
    assert!(str_eq("same", "same"));
    assert!(!str_eq("same", "sane"));
}

#[test]
fn decimal_rendering_is_exact() {
    assert_eq!(u16_to_dec(0), "0");
    assert_eq!(u16_to_dec(7), "7");
    assert_eq!(u16_to_dec(10), "10");
    assert_eq!(u16_to_dec(4000), "4000");
    assert_eq!(u16_to_dec(65535), "65535");
}

#[test]
fn paths_join_and_take_parents() {
    assert_eq!(join_path("/work/demo", "app"), "/work/demo/app");
    assert_eq!(join_path("/work/demo/", "app"), "/work/demo/app");
    assert_eq!(join_path("", "app"), "app");
    assert_eq!(parent_of("/work/demo"), "/work");
    assert_eq!(parent_of("/work"), "/");
    assert_eq!(parent_of("demo"), "");
}

#[test]
fn webserver_config_renders_its_url() {
    let c = LocalWebserverConfig::new("localhost".to_string(), 4000);
    assert_eq!(c.url(), "http://localhost:4000");
    let d = LocalWebserverConfig::default();
    assert_eq!(d.host, "localhost");
    assert_eq!(d.port, 4000);
    assert_eq!(d.url(), "http://localhost:4000");
}

#[test]
fn webserver_renders_its_address() {
    let w = Webserver::new("127.0.0.1".to_string(), 8080);
    assert_eq!(w.address(), "127.0.0.1:8080");
}

#[test]
fn messages_keep_their_parts() {
    let m = Message::new("Running".to_string(), "infrastructure spin up".to_string());
    assert_eq!(m.action, "Running");
    assert_eq!(m.details, "infrastructure spin up");
    assert_eq!(MessageType::Info, MessageType::Info);
    assert_ne!(MessageType::Info, MessageType::Error);
}

#[test]
fn logger_levels_map_to_the_log_crate() {
    assert_eq!(LoggerLevel::DEBUG.to_log_level(), log::LevelFilter::Debug);
    assert_eq!(LoggerLevel::INFO.to_log_level(), log::LevelFilter::Info);
    assert_eq!(LoggerLevel::WARN.to_log_level(), log::LevelFilter::Warn);
    assert_eq!(LoggerLevel::ERROR.to_log_level(), log::LevelFilter::Error);
    assert!(matches!(default_log_level(), LoggerLevel::INFO));
    assert_eq!(default_log_file("/home/user/.igloo"), "/home/user/.igloo/cli.log");
    let s = LoggerSettings {
        log_file: default_log_file("/tmp"),
        level: default_log_level(),
    };
    assert_eq!(s.log_file, "/tmp/cli.log");
}

#[test]
fn project_paths_resolve_against_the_working_directory() {
    assert_eq!(parse_path(".", "/work/here"), "/work/here");
    assert_eq!(parse_path("..", "/work/here"), "/work");
    assert_eq!(parse_path("demo-app", "/work/here"), "demo-app");
    let p = Project::new(
        "demo".to_string(),
        SupportedLanguages::Typescript,
        ".".to_string(),
        "/work/here",
    );
    assert_eq!(p.name, "demo");
    assert_eq!(p.location, "/work/here");
    assert_eq!(p.app_folder, "/work/here/app");
}

#[test]
fn validators_match_on_expected_markers() {
    let up = validate_red_panda_run("CONTAINER\nredpanda-1 Up 2 minutes".to_string());
    assert_eq!(up.name, "redpanda-1");
    assert!(up.present);
    assert_eq!(up.raw_output, "CONTAINER\nredpanda-1 Up 2 minutes");

    let down = validate_red_panda_run("CONTAINER\n".to_string());
    assert!(!down.present);

    let ch = validate_clickhouse_run("clickhousedb-1 clickhouse/clickhouse-server".to_string());
    assert!(ch.present);
    assert!(!validate_clickhouse_run("nothing here".to_string()).present);

    let net = validate_panda_house_network("NETWORK ID NAME\n12ab panda_house bridge".to_string());
    assert_eq!(net.name, "panda_house");
    assert!(net.present);
    assert!(!validate_panda_house_network("NETWORK ID NAME".to_string()).present);

    let cluster = validate_red_panda_cluster("NODE\nredpanda-1*".to_string());
    assert!(cluster.present);
    assert!(!validate_red_panda_cluster("NODE".to_string()).present);
}
