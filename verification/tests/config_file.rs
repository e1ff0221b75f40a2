use rust_class_web::config::file::{Config, Entries, Entry, FileError};

const FULL: &str = r#"
[server]
host = "0.0.0.0"
port = 9000

[database]
db_type = "sqlite"
path = "./data/app.sqlite"
max_connections = 20
min_connections = 2

[tls]
enabled = "NoTLS"
cert_path = "/etc/tls/cert.pem"
key_path = "/etc/tls/key.pem"
"#;

fn with_port(port: &str) -> String {
    FULL.replace("port = 9000", &format!("port = {port}"))
}

#[test]
fn a_full_file_is_read_as_it_stands() {
    let c = Config::parse(FULL).unwrap();
    assert_eq!(c.server.host, "0.0.0.0");
    assert_eq!(c.server.port, 9000);
    assert_eq!(c.database.db_type, "sqlite");
    assert_eq!(c.database.path, "./data/app.sqlite");
    assert_eq!(c.database.max_connections, 20);
    assert_eq!(c.database.min_connections, 2);
    assert_eq!(c.tls.enabled, "NoTLS");
    assert_eq!(c.tls.cert_path, "/etc/tls/cert.pem");
    assert_eq!(c.tls.key_path, "/etc/tls/key.pem");
}

#[test]
fn entries_are_what_the_document_holds() {
    let e = Entries::read(FULL);
    assert_eq!(e.host, Entry::Text("0.0.0.0".to_string()));
    assert_eq!(e.port, Entry::Integer(9000));
    assert_eq!(e.max_connections, Entry::Integer(20));
    assert_eq!(e.tls_enabled, Entry::Text("NoTLS".to_string()));
    let e = Entries::read("[server]\nhost = 1.5\nport = true\n");
    assert_eq!(e.host, Entry::Other);
    assert_eq!(e.port, Entry::Other);
    assert_eq!(e.db_type, Entry::Missing);
    assert_eq!(e.key_path, Entry::Missing);
    let e = Entries::read("server = 3\n");
    assert_eq!(e.host, Entry::Missing);
    let e = Entries::read("[server\n");
    assert_eq!(e.host, Entry::Unparsed);
    assert_eq!(e.key_path, Entry::Unparsed);
}

#[test]
fn values_of_another_type_give_the_defaults() {
    let text = r#"
[server]
host = 1
port = "80"
[database]
db_type = false
path = 2
max_connections = "many"
min_connections = 1.5
[tls]
enabled = true
cert_path = 0
key_path = []
"#;
    let c = Config::parse(text).unwrap();
    assert_eq!(c.server.host, "127.0.0.1");
    assert_eq!(c.server.port, 8081);
    assert_eq!(c.database.db_type, "sqlite");
    assert_eq!(c.database.path, "db.sqlite");
    assert_eq!(c.database.max_connections, 100);
    assert_eq!(c.database.min_connections, 3);
    assert_eq!(c.tls.enabled, "rustls-0_23");
    assert_eq!(c.tls.cert_path, "cert.pem");
    assert_eq!(c.tls.key_path, "key.pem");
}

#[test]
fn a_missing_key_gives_no_configuration() {
    assert_eq!(Config::parse("").unwrap_err(), FileError::Missing);
    assert_eq!(Config::parse(&FULL.replace("key_path", "key")).unwrap_err(), FileError::Missing);
    assert_eq!(Config::parse(&FULL.replace("[tls]", "[ssl]")).unwrap_err(), FileError::Missing);
}

#[test]
fn a_text_that_is_no_toml_gives_no_configuration() {
    assert_eq!(Config::parse("[server").unwrap_err(), FileError::Unparsed);
    assert_eq!(Config::parse("host = ").unwrap_err(), FileError::Unparsed);
}

#[test]
fn numbers_must_fit_their_setting() {
    assert_eq!(Config::parse(&with_port("65535")).unwrap().server.port, 65535);
    assert_eq!(Config::parse(&with_port("0")).unwrap().server.port, 0);
    assert_eq!(Config::parse(&with_port("65536")).unwrap_err(), FileError::OutOfRange);
    assert_eq!(Config::parse(&with_port("-1")).unwrap_err(), FileError::OutOfRange);
    let big = FULL.replace("max_connections = 20", "max_connections = 4294967296");
    assert_eq!(Config::parse(&big).unwrap_err(), FileError::OutOfRange);
    let top = FULL.replace("max_connections = 20", "max_connections = 4294967295");
    assert_eq!(Config::parse(&top).unwrap().database.max_connections, u32::MAX);
}

#[test]
fn the_first_failing_entry_names_the_error() {
    let text = with_port("70000").replace("key_path", "key");
    assert_eq!(Config::parse(&text).unwrap_err(), FileError::OutOfRange);
    let text = FULL.replace("host", "hostname").replace("port = 9000", "port = 70000");
    assert_eq!(Config::parse(&text).unwrap_err(), FileError::Missing);
}

#[test]
fn from_entries_needs_no_file() {
    let entries = Entries {
        host: Entry::Text("::1".to_string()),
        port: Entry::Integer(1),
        db_type: Entry::Other,
        path: Entry::Other,
        max_connections: Entry::Integer(5),
        min_connections: Entry::Other,
        tls_enabled: Entry::Other,
        cert_path: Entry::Other,
        key_path: Entry::Text("k".to_string()),
    };
    let c = Config::from_entries(entries).unwrap();
    assert_eq!(c.server.host, "::1");
    assert_eq!(c.server.port, 1);
    assert_eq!(c.database.max_connections, 5);
    assert_eq!(c.database.min_connections, 3);
    assert_eq!(c.tls.key_path, "k");
}
