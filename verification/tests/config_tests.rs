use onetimer::config::{Config, Database, Log, LogLevel, Server, UNKNOWN_LOG_LEVEL_ERROR};
use onetimer::logger::{choose_log_kind, get_reporter, report_line, LogKind, LOG_CONSOLE, LOG_FILE};
use onetimer::request::{Request, Response};
use std::collections::HashMap;

#[test]
fn log_levels_by_name() {
    assert_eq!(LogLevel::parse("debug"), Ok(LogLevel::Debug));
    assert_eq!(LogLevel::parse("error"), Ok(LogLevel::Error));
    assert_eq!(LogLevel::parse("info"), Ok(LogLevel::Info));
    assert_eq!(LogLevel::parse("off"), Ok(LogLevel::Off));
    assert_eq!(LogLevel::parse("trace"), Ok(LogLevel::Trace));
    assert_eq!(LogLevel::parse("warn"), Ok(LogLevel::Warn));
}

#[test]
fn names_of_no_log_level() {
    assert_eq!(LogLevel::parse(""), Err("unknown log level"));
    assert_eq!(LogLevel::parse("INFO"), Err("unknown log level"));
    assert_eq!(LogLevel::parse("warning"), Err("unknown log level"));
    assert_eq!(LogLevel::parse(" info"), Err("unknown log level"));
    assert_eq!(UNKNOWN_LOG_LEVEL_ERROR, "unknown log level");
}

#[test]
fn log_level_in_any_case() {
    assert_eq!(Config::get_log_level("info".to_string()), Ok(LogLevel::Info));
    assert_eq!(Config::get_log_level("INFO".to_string()), Ok(LogLevel::Info));
    assert_eq!(Config::get_log_level("Debug".to_string()), Ok(LogLevel::Debug));
    assert_eq!(Config::get_log_level("eRRoR".to_string()), Ok(LogLevel::Error));
    assert_eq!(Config::get_log_level("OFF".to_string()), Ok(LogLevel::Off));
    assert_eq!(Config::get_log_level("Trace".to_string()), Ok(LogLevel::Trace));
    assert_eq!(Config::get_log_level("WARN".to_string()), Ok(LogLevel::Warn));
}

#[test]
fn unknown_log_level() {
    assert_eq!(Config::get_log_level("verbose".to_string()), Err("unknown log level"));
    assert_eq!(Config::get_log_level(String::new()), Err("unknown log level"));
    assert_eq!(Config::get_log_level("INFO ".to_string()), Err("unknown log level"));
}

#[test]
fn configuration_is_plain_data() {
    let cfg = Config {
        database: Database { kind: "memory".to_string(), url: "db.sqlite".to_string() },
        server: Server {
            host: "127.0.0.1".to_string(),
            port: 8080,
            workers: 32,
            address: "http://127.0.0.1:8080".to_string(),
        },
        log: Log { kind: "console".to_string(), level: LogLevel::Info, file: "onetimer.log".to_string() },
    };
    assert_eq!(cfg.database.kind, "memory");
    assert_eq!(cfg.database.url, "db.sqlite");
    assert_eq!(cfg.server.host, "127.0.0.1");
    assert_eq!(cfg.server.port, 8080);
    assert_eq!(cfg.server.workers, 32);
    assert_eq!(cfg.server.address, "http://127.0.0.1:8080");
    assert_eq!(cfg.log.kind, "console");
    assert_eq!(cfg.log.level, LogLevel::Info);
    assert_eq!(cfg.log.file, "onetimer.log");
}

#[test]
fn log_kinds_by_name() {
    let c = choose_log_kind("console");
    assert_eq!(c.kind, LogKind::Console);
    assert!(c.supported);
    let c = choose_log_kind("file");
    assert_eq!(c.kind, LogKind::File);
    assert!(c.supported);
    assert_eq!(LOG_CONSOLE, "console");
    assert_eq!(LOG_FILE, "file");
}

#[test]
fn unsupported_log_kind_goes_to_the_console() {
    for name in ["", "syslog", "File", "console ", "files"] {
        let c = choose_log_kind(name);
        assert_eq!(c.kind, LogKind::Console);
        assert!(!c.supported);
    }
}

#[test]
fn reporter_answers_with_its_message() {
    let report = get_reporter::<String>("DB", "SQLite", "sqlite error");
    assert_eq!(report("disk full".to_string()), "sqlite error");
    assert_eq!(report(String::new()), "sqlite error");
    let report = get_reporter::<u32>("MAIN", "Main", "");
    assert_eq!(report(7), "");
}

#[test]
fn report_line_names_the_part_and_the_failure() {
    assert_eq!(report_line("DB", "SQLite", "disk full"), "[DB] SQLite error: disk full");
    assert_eq!(report_line("", "", ""), "[]  error: ");
    assert_eq!(
        report_line("API", "ApiAddRequest::parse_from", "EOF at line 1"),
        "[API] ApiAddRequest::parse_from error: EOF at line 1"
    );
}

#[test]
fn request_and_response_are_plain_data() {
    let mut headers = HashMap::new();
    headers.insert("Host".to_string(), "localhost".to_string());
    let request = Request {
        method: "GET".to_string(),
        url: "/get/abc".to_string(),
        content_length: 0,
        http_version: "1.1".to_string(),
        headers: headers.clone(),
        body: Vec::new(),
    };
    assert_eq!(request.method, "GET");
    assert_eq!(request.url, "/get/abc");
    assert_eq!(request.headers.get("Host"), Some(&"localhost".to_string()));
    assert_eq!(format!("{:?}", request.body), "[]");
    let response = Response {
        content_length: 2,
        http_version: "1.1".to_string(),
        headers,
        body: "{}".to_string(),
        status_code: 200,
        status_msg: "OK",
    };
    assert_eq!(response.content_length, 2);
    assert_eq!(response.body, "{}");
    assert_eq!(response.status_code, 200);
    assert_eq!(response.status_msg, "OK");
    assert_eq!(response.http_version, "1.1");
    assert_eq!(response.headers.len(), 1);
}

#[test]
fn default_configuration() {
    let cfg = Config::default();
    assert_eq!(cfg.database.kind, "memory");
    assert_eq!(cfg.database.url, "db.sqlite");
    assert_eq!(cfg.server.host, "127.0.0.1");
    assert_eq!(cfg.server.port, 8080);
    assert_eq!(cfg.server.workers, 32);
    assert_eq!(cfg.server.address, "http://127.0.0.1:8080");
    assert_eq!(cfg.log.kind, "console");
    assert_eq!(cfg.log.level, LogLevel::Info);
    assert_eq!(cfg.log.file, "onetimer.log");
}

#[test]
fn log_level_names_parse_back() {
    let levels = [
        (LogLevel::Debug, "debug"),
        (LogLevel::Error, "error"),
        (LogLevel::Info, "info"),
        (LogLevel::Off, "off"),
        (LogLevel::Trace, "trace"),
        (LogLevel::Warn, "warn"),
    ];
    for (level, name) in levels {
        assert_eq!(level.name(), name);
        assert_eq!(LogLevel::parse(level.name()), Ok(level));
        assert_eq!(Config::get_log_level(name.to_uppercase()), Ok(level));
    }
}
