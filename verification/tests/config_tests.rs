use honeybee::config::{Config, ConfigFile, ConfigLoad};

#[test]
fn default_config_values() {
    let c = Config::default();
    assert_eq!(c.server.host, "127.0.0.1");
    assert_eq!(c.server.port, 9001);
    assert!(!c.server.debug);
    assert_eq!(c.database.url, "postgres://localhost/mydb");
    assert_eq!(c.database.max_connections, 10);
    assert_eq!(c.logging.level, "info");
    assert!(c.logging.folder.is_none());
    assert!(c.logging.file.is_none());
}

#[test]
fn default_address() {
    assert_eq!(Config::default().get_address(), "127.0.0.1:9001");
}

#[test]
fn missing_file_creates_default() {
    match Config::load_or_create(ConfigFile::Missing) {
        Ok(ConfigLoad::Created(c)) => assert_eq!(c.server.port, 9001),
        _ => panic!("expected a created default configuration"),
    }
}

#[test]
fn existing_file_is_loaded() {
    let mut c = Config::default();
    c.server.port = 7000;
    match Config::load_or_create(ConfigFile::Read(Ok(c))) {
        Ok(ConfigLoad::Loaded(c)) => assert_eq!(c.server.port, 7000),
        _ => panic!("expected the loaded configuration"),
    }
}

#[test]
fn unreadable_file_is_an_error() {
    match Config::load_or_create(ConfigFile::Read(Err("bad toml".to_string()))) {
        Err(e) => assert_eq!(e, "bad toml"),
        _ => panic!("expected an error"),
    }
}

#[test]
fn sanitized_config_drops_the_url() {
    let mut c = Config::default();
    c.logging.folder = Some("logs".to_string());
    let s = c.sanitized();
    assert_eq!(s.host, "127.0.0.1");
    assert_eq!(s.port, 9001);
    assert_eq!(s.level, "info");
    assert_eq!(s.folder.as_deref(), Some("logs"));
    assert!(s.file.is_none());
    assert_eq!(s.max_connections, 10);
}

#[test]
fn log_file_is_kept_in_the_sanitized_config() {
    let mut c = Config::default();
    c.logging.file = Some("logs/debug.log".to_string());
    let s = c.sanitized();
    assert_eq!(s.file.as_deref(), Some("logs/debug.log"));
    assert!(s.folder.is_none());
}

#[test]
fn service_addresses_follow_the_node_port() {
    let c = Config::default();
    assert_eq!(c.backend_address().as_deref(), Some("127.0.0.1:9002"));
    assert_eq!(c.gateway_address().as_deref(), Some("127.0.0.1:9003"));
    let mut last = Config::default();
    last.server.port = 65534;
    assert_eq!(last.backend_address().as_deref(), Some("127.0.0.1:65535"));
    assert!(last.gateway_address().is_none());
}

#[test]
fn mongodb_logging_follows_the_url() {
    let mut c = Config::default();
    assert!(!c.logs_to_mongodb());
    c.database.url = "mongodb://db:27017".to_string();
    assert!(c.logs_to_mongodb());
    c.database.url = "mongodb+srv://cluster.example".to_string();
    assert!(c.logs_to_mongodb());
}
