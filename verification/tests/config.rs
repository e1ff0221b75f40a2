use rust_class_web::app_config;
use rust_class_web::app_config::mongodb::Mongodb;
use rust_class_web::config::database::Database;
use rust_class_web::config::db::Db;
use rust_class_web::config::logger::{env_level, level_of, rotation_of, Level, Logger, Rotation};
use rust_class_web::config::redis::{ttl_or_default, Redis};
use rust_class_web::config::server::{EnabledTls, Host, Server, TlsSetting};
use rust_class_web::config::tls::{paths_from_env, Tls};
use rust_class_web::config::Config;

#[test]
fn logger_defaults() {
    let l = Logger::default();
    assert_eq!(l.make_writer, "file");
    assert_eq!(l.directory, "./data/logs");
    assert_eq!(l.filename_prefix, "app");
    assert_eq!(l.filename_suffix, "log");
    assert_eq!(l.max_level, "info");
    assert_eq!(l.max_log_files, 30);
    assert!(!l.enable_json_formatter);
    assert_eq!(l.rotation, "minutely");
    assert!(!l.show_target);
    assert!(l.show_thread_ids && l.show_thread_names && l.show_file_paths);
    assert!(l.show_line_number && l.show_level);
    assert!(!l.show_ansi);
    assert_eq!(l.max_level(), Level::Info);
    assert_eq!(l.rotation(), Rotation::Minutely);
    assert!(l.writes_to_file());
}

#[test]
fn max_level_ignores_case_and_falls_back_to_info() {
    let mut l = Logger::default();
    for (text, level) in [
        ("trace", Level::Trace),
        ("TRACE", Level::Trace),
        ("Debug", Level::Debug),
        ("info", Level::Info),
        ("wArN", Level::Warn),
        ("error", Level::Error),
        ("", Level::Info),
        ("verbose", Level::Info),
        (" warn", Level::Info),
    ] {
        l.max_level = text.to_string();
        assert_eq!(l.max_level(), level, "{text:?}");
    }
    assert_eq!(level_of("WARN"), Level::Warn);
    assert_eq!(level_of("warn"), Level::Info);
}

#[test]
fn rotation_ignores_case_and_falls_back_to_never() {
    let mut l = Logger::default();
    for (text, rotation) in [
        ("minutely", Rotation::Minutely),
        ("Hourly", Rotation::Hourly),
        ("DAILY", Rotation::Daily),
        ("never", Rotation::Never),
        ("weekly", Rotation::Never),
        ("", Rotation::Never),
    ] {
        l.rotation = text.to_string();
        assert_eq!(l.rotation(), rotation, "{text:?}");
    }
    assert_eq!(rotation_of("daily"), Rotation::Never);
}

#[test]
fn writer_is_a_file_only_when_it_says_so() {
    let mut l = Logger::default();
    for (text, to_file) in [("file", true), ("FILE", true), ("File", true), ("stdout", false), ("", false)] {
        l.make_writer = text.to_string();
        assert_eq!(l.writes_to_file(), to_file, "{text:?}");
    }
}

#[test]
fn env_level_reads_the_filter() {
    assert_eq!(env_level(None), Level::Trace);
    assert_eq!(env_level(Some("trace")), Level::Trace);
    assert_eq!(env_level(Some("DEBUG")), Level::Debug);
    assert_eq!(env_level(Some("info")), Level::Info);
    assert_eq!(env_level(Some("WARN")), Level::Warn);
    assert_eq!(env_level(Some("error")), Level::Error);
    assert_eq!(env_level(Some("Info")), Level::Debug);
    assert_eq!(env_level(Some("rust_class_web=info")), Level::Debug);
}

#[test]
fn enabled_tls_methods() {
    assert!(!EnabledTls::Disabled.use_tls());
    assert!(EnabledTls::Enabled.use_tls());
    assert!(EnabledTls::Mode("rustls-0_23".to_string()).use_tls());
    assert_eq!(EnabledTls::Disabled.method(), "none");
    assert_eq!(EnabledTls::Enabled.method(), "openssl");
    assert_eq!(EnabledTls::Mode("rustls-0_23".to_string()).method(), "rustls-0_23");
    assert!(matches!(EnabledTls::default(), EnabledTls::Disabled));
}

#[test]
fn enabled_tls_from_a_configuration_value() {
    assert!(matches!(EnabledTls::from_setting(TlsSetting::Flag(true)), EnabledTls::Enabled));
    assert!(matches!(EnabledTls::from_setting(TlsSetting::Flag(false)), EnabledTls::Disabled));
    assert!(matches!(EnabledTls::from_setting(TlsSetting::Text("true".to_string())), EnabledTls::Enabled));
    assert!(matches!(EnabledTls::from_setting(TlsSetting::Text("false".to_string())), EnabledTls::Disabled));
    assert!(matches!(EnabledTls::from_setting(TlsSetting::Other), EnabledTls::Disabled));
    match EnabledTls::from_setting(TlsSetting::Text("rustls-0_23".to_string())) {
        EnabledTls::Mode(mode) => assert_eq!(mode, "rustls-0_23"),
        _ => panic!("no mode"),
    }
    match EnabledTls::from_setting(TlsSetting::Text("True".to_string())) {
        EnabledTls::Mode(mode) => assert_eq!(mode, "True"),
        _ => panic!("no mode"),
    }
}

#[test]
fn server_defaults() {
    let s = Server::default();
    assert_eq!(s.host, Host::V4([0, 0, 0, 0]));
    assert_eq!(s.port, 8001);
    assert!(!s.enabled_tls.use_tls());
    assert_eq!(s.tls_cert_path, "cert.pem");
    assert_eq!(s.tls_key_path, "key.pem");
    assert_eq!(s.addr(), (Host::V4([0, 0, 0, 0]), 8001));
    let a = app_config::server::Server::default();
    assert_eq!(a.host, Host::V4([127, 0, 0, 1]));
    assert_eq!(a.port, 8001);
    assert!(!a.enabled_tls);
    assert_eq!(a.addr(), (Host::V4([127, 0, 0, 1]), 8001));
}

#[test]
fn startup_lines_without_tls() {
    let s = Server::default();
    assert_eq!(
        s.startup_address_lines("192.168.1.5"),
        vec![
            "➜ Local:   http://localhost:8001",
            "➜ Local:   http://127.0.0.1:8001",
            "➜ Network: http://192.168.1.5:8001",
        ]
    );
    assert_eq!(
        s.startup_address_lines("127.0.0.1"),
        vec!["➜ Local:   http://localhost:8001", "➜ Local:   http://127.0.0.1:8001"]
    );
}

#[test]
fn startup_lines_with_tls() {
    let mut s = Server::default();
    s.enabled_tls = EnabledTls::Mode("rustls-0_23".to_string());
    s.port = 443;
    assert_eq!(s.startup_address_lines("10.0.0.2"), vec!["➜ Network: https://10.0.0.2:443"]);
    s.enabled_tls = EnabledTls::Enabled;
    assert_eq!(s.startup_address_lines("127.0.0.1"), vec!["➜ Network: https://127.0.0.1:443"]);
}

#[test]
fn other_defaults() {
    let db = Db::default();
    assert_eq!(db.url, "sqlite://./data/db.sqlite?mode=rwc");
    assert_eq!((db.max_connections, db.min_connections), (100, 3));
    let database = Database::default();
    assert_eq!(database.db_type, "sqlite");
    assert_eq!(database.path, "./data/db.sqlite");
    assert_eq!((database.max_connections, database.min_connections), (100, 3));
    assert_eq!(database.url(), "sqlite://./data/db.sqlite");
    assert_eq!(Redis::default().url, "redis://127.0.0.1:6379");
    assert_eq!(Mongodb::default().url, "mongodb://192.168.64.2:27017");
    let tls = Tls::default();
    assert_eq!(tls.enabled, "default");
    assert_eq!(tls.cert_path, "cert.pem");
    assert_eq!(tls.key_path, "key.pem");
}

#[test]
fn config_defaults_are_its_parts_defaults() {
    let c = Config::default();
    assert_eq!(c.server.port, 8001);
    assert_eq!(c.server.host, Host::V4([0, 0, 0, 0]));
    assert_eq!(c.db.url, "sqlite://./data/db.sqlite?mode=rwc");
    assert_eq!(c.logger.max_level, "info");
    assert_eq!(c.redis.url, "redis://127.0.0.1:6379");
    let a = app_config::Config::default();
    assert_eq!(a.server.host, Host::V4([127, 0, 0, 1]));
    assert_eq!(a.db.max_connections, 100);
    assert_eq!(a.logger.rotation, "minutely");
    assert_eq!(a.redis.url, "redis://127.0.0.1:6379");
}

#[test]
fn tls_paths_fall_back_to_the_working_directory() {
    assert_eq!(paths_from_env(None, None), ("./cert.pem".to_string(), "./key.pem".to_string()));
    assert_eq!(
        paths_from_env(Some("/etc/c.pem".to_string()), None),
        ("/etc/c.pem".to_string(), "./key.pem".to_string())
    );
    assert_eq!(
        paths_from_env(None, Some("/etc/k.pem".to_string())),
        ("./cert.pem".to_string(), "/etc/k.pem".to_string())
    );
}

#[test]
fn cache_ttl_defaults_to_five_minutes() {
    assert_eq!(ttl_or_default(None), 300);
    assert_eq!(ttl_or_default(Some(0)), 0);
    assert_eq!(ttl_or_default(Some(86400)), 86400);
}
