use croissant_core::commands::{get_config, greet};
use croissant_core::config::{
    build_connection_string, build_descriptor, connection_string, mock_mode, ConfigError,
};
use croissant_core::errors::OpError;

#[test]
fn missing_secret_is_a_fatal_configuration_error() {
    let r = build_descriptor(None, None, None, None, None);
    assert_eq!(r.unwrap_err(), ConfigError::MissingSecret);
}

#[test]
fn missing_secret_even_when_everything_else_is_set() {
    let r = build_descriptor(
        Some("db.example".to_string()),
        Some("6000".to_string()),
        Some("admin".to_string()),
        None,
        Some("mydb".to_string()),
    );
    assert_eq!(r.unwrap_err(), ConfigError::MissingSecret);
}

#[test]
fn defaults_applied_when_values_absent() {
    let d = build_descriptor(None, None, None, Some("SECRET-REDACTED".to_string()), None).unwrap();
    assert_eq!(d.host, "localhost");
    assert_eq!(d.port, "5432");
    assert_eq!(d.user, "postgres");
    assert_eq!(d.dbname, "defaultdb");
    assert_eq!(d.secret, "SECRET-REDACTED");
    assert_eq!(d.sslmode, "disable");
}

#[test]
fn supplied_values_override_defaults() {
    let d = build_descriptor(
        Some("db.example".to_string()),
        Some("6000".to_string()),
        Some("admin".to_string()),
        Some("pw".to_string()),
        Some("mydb".to_string()),
    )
    .unwrap();
    assert_eq!(d.host, "db.example");
    assert_eq!(d.port, "6000");
    assert_eq!(d.user, "admin");
    assert_eq!(d.dbname, "mydb");
}

#[test]
fn connection_string_has_exact_keyword_value_form() {
    let d = build_descriptor(None, None, None, Some("pw".to_string()), None).unwrap();
    assert_eq!(
        connection_string(&d),
        "host=localhost user=postgres password=pw dbname=defaultdb port=5432 sslmode=disable"
    );
}

#[test]
fn one_step_connection_string_fails_fast_without_secret() {
    assert_eq!(
        build_connection_string(
            Some("db.example".to_string()),
            None,
            None,
            None,
            Some("mydb".to_string()),
        ),
        Err(ConfigError::MissingSecret)
    );
    assert_eq!(
        build_connection_string(None, None, None, Some("pw".to_string()), None).unwrap(),
        "host=localhost user=postgres password=pw dbname=defaultdb port=5432 sslmode=disable"
    );
}

#[test]
fn mock_mode_is_selected_only_by_the_mock_value() {
    assert!(mock_mode(Some("mock".to_string())));
    assert!(!mock_mode(Some("database".to_string())));
    assert!(!mock_mode(Some("Mock".to_string())));
    assert!(!mock_mode(None));
}

#[test]
fn greet_formats_the_name() {
    assert_eq!(greet("Ada"), "Hello, Ada! Welcome to Croissant.");
}

#[test]
fn frontend_config_is_demo_not_local_dev() {
    let c = get_config();
    assert!(c.demo);
    assert!(!c.local_dev);
}

#[test]
fn error_messages_carry_the_failing_stage() {
    assert_eq!(OpError::Hash.message(), "Hash error: credential hashing failed");
    assert_eq!(
        OpError::InvalidStoredHash.message(),
        "Verify error: stored hash is malformed"
    );
    assert_eq!(OpError::DuplicateEmail.message(), "Insert error: duplicate email");
    assert_eq!(OpError::NotFound.message(), "Update error: no matching row");
}
