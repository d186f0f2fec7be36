use oxidoor::lock::{DoorStatus, LockMode, LockState, LockStatus, UnlockSource};
use oxidoor::settings::{
    apply_cli_args, config_files, default_sqlite_url, AppConfig, Cli, ConfigOverride,
    DatabaseConfig, OverrideValue, Settings,
};

fn text(o: &ConfigOverride) -> (&str, &str) {
    match &o.value {
        OverrideValue::Text(s) => (o.key.as_str(), s.as_str()),
        OverrideValue::Integer(_) => panic!("expected a text override for {}", o.key),
    }
}

#[test]
fn sqlite_url_is_returned() {
    let db = DatabaseConfig::Sqlite { url: "sqlite://./custom.db".to_string() };
    assert_eq!(db.url(), "sqlite://./custom.db");
}

#[test]
fn postgresql_url_is_returned() {
    let db = DatabaseConfig::Postgresql { url: "postgres://user@localhost/oxidoor".to_string() };
    assert_eq!(db.url(), "postgres://user@localhost/oxidoor");
}

#[test]
fn default_sqlite_url_points_to_local_file() {
    assert_eq!(default_sqlite_url(), "sqlite://./data.db");
    let db = DatabaseConfig::Sqlite { url: default_sqlite_url() };
    assert_eq!(db.url(), "sqlite://./data.db");
}

#[test]
fn settings_hold_their_parts() {
    let settings = Settings {
        log_level: "debug".to_string(),
        app: AppConfig {
            host: "0.0.0.0".to_string(),
            port: 8080,
            frontend_url: "http://localhost:3000".to_string(),
            allowed_origins: vec!["http://localhost:3000".to_string()],
        },
        db: DatabaseConfig::Sqlite { url: default_sqlite_url() },
    };
    assert_eq!(settings.db.url(), "sqlite://./data.db");
    assert_eq!(settings.app.port, 8080);
}

#[test]
fn cli_with_host_and_port_overrides_all_three() {
    let cli = Cli {
        config: None,
        host: Some("127.0.0.1".to_string()),
        port: Some(9000),
        log_level: "warn".to_string(),
    };
    let overrides = apply_cli_args(Vec::new(), &cli);
    assert_eq!(overrides.len(), 3);
    assert_eq!(text(&overrides[0]), ("app.host", "127.0.0.1"));
    assert_eq!(overrides[1].key, "app.port");
    assert!(matches!(overrides[1].value, OverrideValue::Integer(9000)));
    assert_eq!(text(&overrides[2]), ("log_level", "warn"));
}

#[test]
fn cli_without_host_and_port_overrides_log_level_only() {
    let cli = Cli { config: Some("custom.toml".to_string()), host: None, port: None, log_level: "info".to_string() };
    let overrides = apply_cli_args(Vec::new(), &cli);
    assert_eq!(overrides.len(), 1);
    assert_eq!(text(&overrides[0]), ("log_level", "info"));
}

#[test]
fn cli_overrides_come_after_earlier_ones() {
    let earlier = vec![ConfigOverride {
        key: "log_level".to_string(),
        value: OverrideValue::Text("trace".to_string()),
    }];
    let cli = Cli { config: None, host: None, port: Some(1), log_level: "error".to_string() };
    let overrides = apply_cli_args(earlier, &cli);
    assert_eq!(overrides.len(), 3);
    assert_eq!(text(&overrides[0]), ("log_level", "trace"));
    assert_eq!(overrides[1].key, "app.port");
    assert!(matches!(overrides[1].value, OverrideValue::Integer(1)));
    assert_eq!(text(&overrides[2]), ("log_level", "error"));
}

#[test]
fn lock_status_holds_its_fields() {
    let status = LockStatus {
        state: LockState::Locked,
        mode: LockMode::Normal,
        last_change: 0,
        last_unlock_source: Some(UnlockSource::Nfc(7)),
        daily_unlock_count: 3,
        failed_attempts: 0,
        battery_level: Some(80),
        door_status: DoorStatus::Closed,
    };
    assert_eq!(status.last_unlock_source, Some(UnlockSource::Nfc(7)));
    assert_eq!(status.door_status, DoorStatus::Closed);
}

#[test]
fn config_files_default_to_development_mode() {
    let files = config_files(None, None);
    assert_eq!(files.len(), 2);
    assert_eq!(files[0].name, "config/default");
    assert!(!files[0].required);
    assert_eq!(files[1].name, "config/development");
    assert!(!files[1].required);
}

#[test]
fn config_files_follow_run_mode_and_custom_file() {
    let files = config_files(Some("production".to_string()), Some("/etc/oxidoor.toml".to_string()));
    assert_eq!(files.len(), 3);
    assert_eq!(files[0].name, "config/default");
    assert_eq!(files[1].name, "config/production");
    assert!(!files[1].required);
    assert_eq!(files[2].name, "/etc/oxidoor.toml");
    assert!(files[2].required);
}
