use dunno::json::Json;
use dunno::config::{
    Config, ConfigFile, PartialCloudConfig, PartialConfig, PartialLocalConfig, StorageBackend,
};

fn s(v: &str) -> Option<String> {
    Some(v.to_string())
}

fn cloud(
    url: Option<String>,
    namespace: Option<String>,
    database: Option<String>,
    username: Option<String>,
    password: Option<String>,
) -> Option<PartialCloudConfig> {
    Some(PartialCloudConfig {
        url,
        namespace,
        database,
        username,
        password,
        auth_type: None,
    })
}

fn partial(
    backend: Option<String>,
    local_path: Option<String>,
    cloud: Option<PartialCloudConfig>,
    qdrant_url: Option<String>,
) -> PartialConfig {
    PartialConfig {
        backend,
        local: local_path.map(|p| PartialLocalConfig { path: Some(p) }),
        cloud,
        qdrant_url,
    }
}

#[test]
fn test_config_parsing_new_format() {
    // backend = "cloud", qdrant_url = "http://localhost:6333",
    // [local] path = "~/.local/share/dunno/data.db",
    // [cloud] url, namespace, database, username, password
    let parsed = partial(
        s("cloud"),
        s("~/.local/share/dunno/data.db"),
        cloud(
            s("wss://example.surrealdb.com"),
            s("dunno"),
            s("dunno"),
            s("user"),
            s("pass"),
        ),
        s("http://localhost:6333"),
    );
    let mut config = Config::default();
    config
        .merge_partial(parsed)
        .expect("Failed to merge partial config");

    assert!(matches!(config.backend, StorageBackend::Cloud));
    assert_eq!(config.local.path, "~/.local/share/dunno/data.db");
    assert_eq!(config.cloud.url, "wss://example.surrealdb.com");
    assert_eq!(config.cloud.username, "user");
}

#[test]
fn test_expand_tilde() {
    let expanded = dunno::config::expand_tilde_path("~/tmp/dunno");
    assert!(expanded.contains("tmp/dunno"));
}

#[test]
fn test_load_defaults_when_file_missing() {
    let config = Config::load_from_optional_paths(None, Some(ConfigFile::Missing), None, true, &[])
        .expect("load should succeed");
    assert!(matches!(config.backend, StorageBackend::Local));
    assert_eq!(config.qdrant_url, "mem://");
}

#[test]
fn test_env_overrides_apply() {
    let mut config = Config::default();
    config
        .apply_env_override_pairs(&[
            ("DUNNO_BACKEND", Some("cloud".to_string())),
            ("DUNNO_CLOUD_URL", Some("wss://example.com/rpc".to_string())),
            ("DUNNO_CLOUD_NS", Some("ns1".to_string())),
            ("DUNNO_CLOUD_DB", Some("db1".to_string())),
            ("DUNNO_CLOUD_USER", Some("u1".to_string())),
            ("DUNNO_CLOUD_PASS", Some("p1".to_string())),
            ("DUNNO_LOCAL_PATH", Some("/tmp/override.db".to_string())),
        ])
        .expect("env overrides should apply");

    assert!(matches!(config.backend, StorageBackend::Cloud));
    assert_eq!(config.cloud.url, "wss://example.com/rpc");
    assert_eq!(config.local.path, "/tmp/override.db");
}

#[test]
fn test_precedence_cli_over_local_file() {
    let local = partial(
        s("cloud"),
        None,
        cloud(
            s("wss://local.example.surrealdb.com"),
            s("local"),
            s("local"),
            s("local"),
            s("local"),
        ),
        None,
    );
    let loaded = Config::load_from_optional_paths(
        Some("local"),
        None,
        Some(ConfigFile::Parsed(local)),
        true,
        &[],
    )
    .expect("load should succeed");
    assert!(matches!(loaded.backend, StorageBackend::Local));
}

#[test]
fn test_local_config_overrides_global() {
    let global = partial(
        s("cloud"),
        None,
        cloud(
            s("wss://global.example.surrealdb.com"),
            s("global"),
            s("global"),
            s("global"),
            s("global"),
        ),
        None,
    );
    let local = partial(s("local"), s("/tmp/local-override.db"), None, None);
    let loaded = Config::load_from_optional_paths(
        None,
        Some(ConfigFile::Parsed(global)),
        Some(ConfigFile::Parsed(local)),
        true,
        &[],
    )
    .expect("load should succeed");
    assert!(matches!(loaded.backend, StorageBackend::Local));
    assert_eq!(loaded.local.path, "/tmp/local-override.db");
}

#[test]
fn test_cloud_defaults_match_surrealdb() {
    let config = Config::default();
    assert_eq!(config.cloud.url, "");
    assert_eq!(config.cloud.namespace, "");
    assert_eq!(config.cloud.database, "");
    assert_eq!(config.cloud.username, "root");
    assert_eq!(config.cloud.password, "root");
}

#[test]
fn test_cloud_config_partial_override() {
    let parsed = partial(
        s("cloud"),
        None,
        cloud(s("wss://my-instance.surreal.cloud"), s("dunno"), s("dunno"), None, None),
        None,
    );
    let mut config = Config::default();
    config.merge_partial(parsed).expect("Failed to merge");

    assert!(matches!(config.backend, StorageBackend::Cloud));
    assert_eq!(config.cloud.url, "wss://my-instance.surreal.cloud");
    assert_eq!(config.cloud.namespace, "dunno");
    assert_eq!(config.cloud.database, "dunno");
    assert_eq!(config.cloud.username, "root");
    assert_eq!(config.cloud.password, "root");
}

#[test]
fn test_invalid_backend_errors() {
    let mut config = Config::default();
    let err = config
        .apply_env_override_pairs(&[("DUNNO_BACKEND", Some("invalid".to_string()))])
        .expect_err("invalid backend should fail");
    assert!(err.message().contains("Invalid backend"));
}

#[test]
fn test_defaults_apply_when_no_config_files_or_env() {
    let loaded = Config::load_from_optional_paths(
        None,
        Some(ConfigFile::Missing),
        Some(ConfigFile::Missing),
        true,
        &[],
    )
    .expect("load should succeed with defaults");
    assert!(matches!(loaded.backend, StorageBackend::Local));
    assert_eq!(loaded.local.path, "~/.local/share/dunno/data.db");
}

#[test]
fn test_global_config_applies_when_no_local() {
    let global = partial(
        s("cloud"),
        None,
        cloud(
            s("wss://global-only.example.com"),
            s("global-ns"),
            s("global-db"),
            s("global-user"),
            s("global-pass"),
        ),
        None,
    );
    let loaded = Config::load_from_optional_paths(
        None,
        Some(ConfigFile::Parsed(global)),
        Some(ConfigFile::Missing),
        true,
        &[],
    )
    .expect("load should succeed");
    assert!(matches!(loaded.backend, StorageBackend::Cloud));
    assert_eq!(loaded.cloud.url, "wss://global-only.example.com");
    assert_eq!(loaded.cloud.namespace, "global-ns");
}

#[test]
fn test_local_config_overrides_partial_global_values() {
    let global = partial(
        s("cloud"),
        None,
        cloud(
            s("wss://global.example.com"),
            s("global-ns"),
            s("global-db"),
            s("global-user"),
            s("global-pass"),
        ),
        None,
    );
    let local = partial(
        None,
        None,
        cloud(s("wss://local.example.com"), s("local-ns"), None, None, None),
        None,
    );
    let loaded = Config::load_from_optional_paths(
        None,
        Some(ConfigFile::Parsed(global)),
        Some(ConfigFile::Parsed(local)),
        true,
        &[],
    )
    .expect("load should succeed");
    assert!(matches!(loaded.backend, StorageBackend::Cloud));
    assert_eq!(loaded.cloud.url, "wss://local.example.com");
    assert_eq!(loaded.cloud.namespace, "local-ns");
    assert_eq!(loaded.cloud.database, "global-db");
    assert_eq!(loaded.cloud.username, "global-user");
}

#[test]
fn test_cli_backend_override_preserves_other_config_values() {
    let local = partial(
        s("cloud"),
        s("/tmp/cli-test.db"),
        cloud(
            s("wss://cli-test.example.com"),
            s("cli-ns"),
            s("cli-db"),
            s("cli-user"),
            s("cli-pass"),
        ),
        None,
    );
    let loaded = Config::load_from_optional_paths(
        Some("local"),
        None,
        Some(ConfigFile::Parsed(local)),
        true,
        &[],
    )
    .expect("load should succeed");
    assert!(matches!(loaded.backend, StorageBackend::Local));
    assert_eq!(loaded.cloud.url, "wss://cli-test.example.com");
    assert_eq!(loaded.local.path, "/tmp/cli-test.db");
}

#[test]
fn test_invalid_toml_format_fails_gracefully() {
    let file = ConfigFile::ParseFailed { path: "dunno-invalid.toml".to_string() };
    let result = Config::load_from_optional_paths(None, Some(file), None, true, &[]);
    assert!(result.is_err(), "should fail with invalid TOML");
    let err_msg = result.unwrap_err().message();
    assert!(err_msg.contains("Failed to parse TOML") || err_msg.contains("TOML"));
}

#[test]
fn test_empty_config_file_uses_defaults() {
    let empty = partial(None, None, None, None);
    let loaded =
        Config::load_from_optional_paths(None, Some(ConfigFile::Parsed(empty)), None, true, &[])
            .expect("load should succeed with defaults");
    assert!(matches!(loaded.backend, StorageBackend::Local));
    assert_eq!(loaded.local.path, "~/.local/share/dunno/data.db");
}

#[test]
fn test_local_backend_config_with_cloud_in_global() {
    let global = partial(s("cloud"), None, cloud(s("wss://cloud.example.com"), None, None, None, None), None);
    let local = partial(s("local"), s("/tmp/mixed.db"), None, None);
    let loaded = Config::load_from_optional_paths(
        None,
        Some(ConfigFile::Parsed(global)),
        Some(ConfigFile::Parsed(local)),
        true,
        &[],
    )
    .expect("load should succeed");
    assert!(matches!(loaded.backend, StorageBackend::Local));
    assert_eq!(loaded.local.path, "/tmp/mixed.db");
    assert_eq!(loaded.cloud.url, "wss://cloud.example.com");
}

#[test]
fn test_config_path_methods_return_expected_paths() {
    let global = Config::global_config_path();
    let local = Config::local_config_path();
    assert!(global.contains(".config"));
    assert!(global.contains("dunno"));
    assert!(global.ends_with("dunno.toml"));
    assert_eq!(local, "dunno.toml");
}

#[test]
fn test_qdrant_url_configurable() {
    let file = partial(None, None, None, s("http://localhost:6333"));
    let loaded =
        Config::load_from_optional_paths(None, Some(ConfigFile::Parsed(file)), None, true, &[])
            .expect("load should succeed");
    assert_eq!(loaded.qdrant_url, "http://localhost:6333");
}

#[test]
fn test_invalid_qdrant_url_in_config_is_accepted() {
    let file = partial(None, None, None, s("not-a-valid-url"));
    let loaded =
        Config::load_from_optional_paths(None, Some(ConfigFile::Parsed(file)), None, true, &[])
            .expect("load should succeed");
    assert_eq!(loaded.qdrant_url, "not-a-valid-url");
}

#[test]
fn test_partial_cloud_config_preserves_defaults() {
    let file = partial(s("cloud"), None, cloud(s("wss://partial.example.com"), None, None, None, None), None);
    let loaded =
        Config::load_from_optional_paths(None, Some(ConfigFile::Parsed(file)), None, true, &[])
            .expect("load should succeed");
    assert!(matches!(loaded.backend, StorageBackend::Cloud));
    assert_eq!(loaded.cloud.url, "wss://partial.example.com");
    assert_eq!(loaded.cloud.username, "root");
    assert_eq!(loaded.cloud.password, "root");
    assert_eq!(loaded.cloud.namespace, "");
    assert_eq!(loaded.cloud.database, "");
}

#[test]
fn test_formatted_output_local_backend() {
    let config = Config::default();
    let formatted = config.formatted();

    assert!(formatted.contains("Backend: local"));
    assert!(formatted.contains("Local Storage"));
    assert!(formatted.contains("Database Path:"));
    assert!(formatted.contains("Config File Paths"));
}

#[test]
fn test_formatted_output_cloud_backend() {
    let mut config = Config::default();
    config.backend = StorageBackend::Cloud;
    config.cloud.url = "wss://test.surrealdb.com".to_string();
    config.cloud.namespace = "test_ns".to_string();
    config.cloud.database = "test_db".to_string();
    config.cloud.username = "test_user".to_string();
    config.cloud.password = "secret_password".to_string();

    let formatted = config.formatted();

    assert!(formatted.contains("Backend: cloud"));
    assert!(formatted.contains("Cloud Settings"));
    assert!(formatted.contains("wss://test.surrealdb.com"));
    assert!(formatted.contains("test_ns"));
    assert!(formatted.contains("test_db"));
    assert!(formatted.contains("test_user"));
    assert!(formatted.contains("***redacted***"));
    assert!(!formatted.contains("secret_password"));
}

// Own tests.

#[test]
fn backend_names_ignore_case_and_surrounding_whitespace() {
    assert_eq!(StorageBackend::parse("  CLOUD \n").unwrap(), StorageBackend::Cloud);
    assert_eq!(StorageBackend::parse("Local").unwrap(), StorageBackend::Local);
    let err = StorageBackend::parse("  Remote ").unwrap_err();
    assert_eq!(
        err.message(),
        "Invalid backend 'remote'. Expected one of: local, cloud"
    );
}

#[test]
fn later_environment_values_win() {
    let mut config = Config::default();
    config
        .apply_env_override_pairs(&[
            ("DUNNO_CLOUD_URL", Some("first".to_string())),
            ("DUNNO_CLOUD_URL", Some("second".to_string())),
            ("DUNNO_CLOUD_URL", None),
            ("UNRELATED", Some("x".to_string())),
        ])
        .unwrap();
    assert_eq!(config.cloud.url, "second");
    assert_eq!(config.local.path, "~/.local/share/dunno/data.db");
}

#[test]
fn invalid_backend_leaves_the_configuration_unchanged() {
    let mut config = Config::default();
    let bad = partial(s("moon"), s("/tmp/x.db"), None, s("http://q"));
    assert!(config.merge_partial(bad).is_err());
    assert_eq!(config.local.path, "~/.local/share/dunno/data.db");
    assert_eq!(config.qdrant_url, "mem://");
}

#[test]
fn load_switches_to_a_managed_store() {
    let loaded = Config::load(None, ConfigFile::Missing, ConfigFile::Missing, &[], Some(" 8123\n"))
        .unwrap();
    assert_eq!(loaded.backend, StorageBackend::Cloud);
    assert_eq!(loaded.cloud.url, "ws://127.0.0.1:8123/rpc");
    assert_eq!(loaded.cloud.namespace, "dunno");
    assert_eq!(loaded.cloud.database, "dunno");
    assert_eq!(loaded.cloud.username, "root");
}

#[test]
fn load_ignores_a_marker_without_a_port() {
    for marker in ["", "abc", "70000", "-1", "+"] {
        let loaded =
            Config::load(None, ConfigFile::Missing, ConfigFile::Missing, &[], Some(marker)).unwrap();
        assert_eq!(loaded.backend, StorageBackend::Local, "marker {marker:?}");
    }
    let loaded =
        Config::load(None, ConfigFile::Missing, ConfigFile::Missing, &[], Some("+65535")).unwrap();
    assert_eq!(loaded.cloud.url, "ws://127.0.0.1:65535/rpc");
}

#[test]
fn load_applies_layers_in_order() {
    let global = partial(s("cloud"), None, cloud(s("g"), s("gns"), None, None, None), None);
    let local = partial(None, None, cloud(s("l"), None, None, None, None), None);
    let env = [("DUNNO_CLOUD_NS", Some("env-ns".to_string()))];
    let loaded = Config::load(
        None,
        ConfigFile::Parsed(global),
        ConfigFile::Parsed(local),
        &env,
        None,
    )
    .unwrap();
    assert_eq!(loaded.backend, StorageBackend::Cloud);
    assert_eq!(loaded.cloud.url, "l");
    assert_eq!(loaded.cloud.namespace, "env-ns");
    let err = Config::load(
        Some("nope"),
        ConfigFile::Missing,
        ConfigFile::Missing,
        &[],
        None,
    )
    .unwrap_err();
    assert_eq!(err.message(), "Invalid backend 'nope'. Expected one of: local, cloud");
}

#[test]
fn formatted_with_renders_every_line() {
    let config = Config::default();
    assert_eq!(
        config.formatted_with("/home/u/.config/dunno/dunno.toml"),
        "=== Configuration ===\n\nBackend: local\n\n--- Local Storage ---\nDatabase Path: ~/.local/share/dunno/data.db\n\n--- Vector Store ---\nQdrant URL: mem://\n\n--- Config File Paths ---\nGlobal: /home/u/.config/dunno/dunno.toml\nLocal: dunno.toml\n"
    );
}

#[test]
fn paths_join_like_pathbuf() {
    assert_eq!(dunno::config::path_join_str("/home/u", ".config"), "/home/u/.config");
    assert_eq!(dunno::config::path_join_str("/home/u/", "x"), "/home/u/x");
    assert_eq!(dunno::config::path_join_str("", "x"), "x");
    assert_eq!(dunno::config::path_join_str("/a", "/etc"), "/etc");
    assert_eq!(
        dunno::config::global_config_path_in(Some("/home/u".to_string())),
        "/home/u/.config/dunno/dunno.toml"
    );
    assert_eq!(dunno::config::global_config_path_in(None), "./.config/dunno/dunno.toml");
    assert_eq!(
        dunno::config::expand_tilde_in("~/data.db", Some("/h".to_string())),
        "/h/data.db"
    );
    assert_eq!(dunno::config::expand_tilde_in("~", None), "~");
    assert_eq!(dunno::config::expand_tilde_in("~x", Some("/h".to_string())), "~x");
}

#[test]
fn redacted_password_hides_the_secret() {
    let mut config = Config::default();
    assert_eq!(config.redacted_password(), "***redacted***");
    config.cloud.password = String::new();
    assert_eq!(config.redacted_password(), "");
}

#[test]
fn redacted_report_hides_the_password() {
    let mut config = Config::default();
    config.cloud.password = "secret".to_string();
    let doc = config.redacted_json_with("/home/u/.config/dunno/dunno.toml");
    let members = match doc {
        Json::Object(m) => m,
        other => panic!("not an object: {:?}", other),
    };
    assert_eq!(members[0], ("backend".to_string(), Json::Str("local".to_string())));
    match &members[2].1 {
        Json::Object(c) => {
            assert_eq!(c[4], ("password".to_string(), Json::Str("***redacted***".to_string())));
        }
        other => panic!("not an object: {:?}", other),
    }
    assert_eq!(members[5], ("local_config_path".to_string(), Json::Str("dunno.toml".to_string())));

    let empty = Config { cloud: dunno::config::CloudConfig { password: String::new(), ..Config::default().cloud }, ..Config::default() };
    match empty.redacted_json_with("g") {
        Json::Object(m) => match &m[2].1 {
            Json::Object(c) => assert_eq!(c[4].1, Json::Str(String::new())),
            other => panic!("not an object: {:?}", other),
        },
        other => panic!("not an object: {:?}", other),
    }
}

#[test]
fn unreadable_files_name_their_path() {
    let file = ConfigFile::ReadFailed { path: "/etc/dunno.toml".to_string() };
    let err = Config::load_from_optional_paths(None, Some(file), None, true, &[]).unwrap_err();
    assert_eq!(err.message(), "Failed to read config file at /etc/dunno.toml");
    let file = ConfigFile::ParseFailed { path: "dunno.toml".to_string() };
    let err = Config::load_from_optional_paths(None, None, Some(file), true, &[]).unwrap_err();
    assert_eq!(err.message(), "Failed to parse TOML at dunno.toml");
}

#[test]
fn embedded_names_the_local_store() {
    assert!(matches!(StorageBackend::parse("embedded"), Ok(StorageBackend::Local)));
    assert!(matches!(StorageBackend::parse("  Embedded "), Ok(StorageBackend::Local)));
}
