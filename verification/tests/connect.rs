use dunno::config::{Config, StorageBackend};
use dunno::connect::{url_plan, ConnectError, SignIn};

#[test]
fn local_store_opens_without_signing_in() {
    let config = Config::default();
    let plan = config.connection_plan_with("/data/dunno.db").unwrap();
    assert_eq!(plan.url, "surrealkv:///data/dunno.db");
    assert_eq!(plan.namespace, "dunno");
    assert_eq!(plan.database, "dunno");
    assert!(plan.signin.is_none());
}

#[test]
fn cloud_store_needs_every_setting() {
    let mut config = Config::default();
    config.backend = StorageBackend::Cloud;
    assert_eq!(config.connection_plan_with("x").unwrap_err(), ConnectError::MissingUrl);
    config.cloud.url = "wss://db.example".to_string();
    let err = config.connection_plan_with("x").unwrap_err();
    assert_eq!(err.message(), "Cloud backend requires `cloud.namespace` (or DUNNO_CLOUD_NS)");
    config.cloud.namespace = "ns".to_string();
    config.cloud.database = "  ".to_string();
    assert_eq!(config.connection_plan_with("x").unwrap_err(), ConnectError::MissingDatabase);
    config.cloud.database = "db".to_string();
    let plan = config.connection_plan_with("x").unwrap();
    assert!(matches!(plan.signin, Some(SignIn::Root { ref username, .. }) if username == "root"));
    assert!(!plan.signin_first);
    config.cloud.auth_type = "database".to_string();
    let plan = config.connection_plan_with("x").unwrap();
    assert!(matches!(plan.signin, Some(SignIn::Database { ref database, .. }) if database == "db"));
}

#[test]
fn stores_by_address() {
    assert!(url_plan("mem://").signin.is_none());
    assert!(url_plan("ws://localhost:8000").signin.is_some());
}
