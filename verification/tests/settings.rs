use serveit::Settings;
use serveit::SettingsError;
use temp_env::with_vars;

#[test]
fn loads_from_default() {
    let settings = Settings::default();
    assert_eq!(settings.port(), 4000);
    assert_eq!(settings.root_dir(), ".");
}

#[test]
fn loads_from_env_defaults() {
    let settings = with_vars([("DUMMY_VAR", Some("1"))], || Settings::from_env()).unwrap();
    assert_eq!(settings.port(), 4000);
    assert_eq!(settings.root_dir(), ".");
}

#[test]
fn loads_from_env_allset() {
    let settings = with_vars(
        [
            ("SERVEIT_PORT", Some("4000")),
            ("SERVEIT_ROOT_DIR", Some("/app/web")),
        ],
        || Settings::from_env(),
    )
    .unwrap();
    assert_eq!(settings.port(), 4000);
    assert_eq!(settings.root_dir(), "/app/web");
}

#[test]
fn loads_custom_port_from_env() {
    let settings = with_vars([("SERVEIT_PORT", Some("8123"))], || Settings::from_env()).unwrap();
    assert_eq!(settings.port(), 8123);
    assert_eq!(settings.root_dir(), ".");
}

#[test]
fn rejects_unparsable_port_from_env() {
    let err = with_vars([("SERVEIT_PORT", Some("abc"))], || Settings::from_env()).unwrap_err();
    assert_eq!(err.message(), "invalid value for SERVEIT_PORT: abc");
}

#[test]
fn from_values_defaults_when_absent() {
    let settings = Settings::from_values(None, None).unwrap();
    assert_eq!(settings.port(), 4000);
    assert_eq!(settings.root_dir(), ".");
}

#[test]
fn from_values_overrides_both() {
    let settings =
        Settings::from_values(Some(String::from("8123")), Some(String::from("/tmp/site")))
            .unwrap();
    assert_eq!(settings.port(), 8123);
    assert_eq!(settings.root_dir(), "/tmp/site");
}

#[test]
fn from_values_rejects_bad_port() {
    let err = Settings::from_values(Some(String::from("70000")), None).unwrap_err();
    assert!(matches!(err, SettingsError::InvalidPort { .. }));
    assert_eq!(err.message(), "invalid value for SERVEIT_PORT: 70000");
}

#[test]
fn from_values_keeps_root_verbatim() {
    let settings = Settings::from_values(None, Some(String::from("relative/dir"))).unwrap();
    assert_eq!(settings.root_dir(), "relative/dir");
    assert_eq!(settings.port(), 4000);
}
