use loco_keycloak_auth::build_keycloak_layer;
use loco_keycloak_auth::config::ConfigValue;
use loco_keycloak_auth::error::ConfigError;
use loco_keycloak_auth::initializer::KeycloakAuthInitializer;
use loco_keycloak_auth::settings::PassthroughMode;
use loco_keycloak_auth::settings::PassthroughModeDef;
use loco_keycloak_auth::settings::Settings;
use loco_keycloak_auth::Keycloak;

fn text(s: &str) -> ConfigValue {
    ConfigValue::Text(s.to_string())
}

fn keycloak_section(url: &str, mode: &str) -> Vec<(String, ConfigValue)> {
    vec![
        ("url".to_string(), text(url)),
        ("realm".to_string(), text("myrealm")),
        (
            "expected_audiences".to_string(),
            ConfigValue::Array(vec![text("account")]),
        ),
        ("passthrough_mode".to_string(), text(mode)),
        ("persist_raw_claims".to_string(), ConfigValue::Bool(false)),
    ]
}

fn settings_tree(url: &str, mode: &str) -> ConfigValue {
    ConfigValue::Object(vec![(
        "keycloak_settings".to_string(),
        ConfigValue::Object(keycloak_section(url, mode)),
    )])
}

fn tree_with_section(section: ConfigValue) -> ConfigValue {
    ConfigValue::Object(vec![("keycloak_settings".to_string(), section)])
}

fn with_runtime<T>(f: impl FnOnce() -> T) -> T {
    let rt = tokio::runtime::Runtime::new().unwrap();
    let guard = rt.enter();
    let out = f();
    drop(guard);
    out
}

#[test]
fn block_token_parses_in_any_casing() {
    for token in ["Block", "block", "BLOCK", "bLoCk", "BLOck"] {
        let parsed = PassthroughModeDef::parse(token).unwrap();
        assert_eq!(parsed, PassthroughModeDef(PassthroughMode::Block));
    }
}

#[test]
fn kelvin_sign_casing_of_block_parses() {
    for token in ["BLOC\u{212A}", "bloc\u{212A}", "Bloc\u{212A}"] {
        let parsed = PassthroughModeDef::parse(token).unwrap();
        assert_eq!(parsed, PassthroughModeDef(PassthroughMode::Block));
        assert_eq!(token.to_lowercase(), "block");
    }
}

#[test]
fn pass_token_parses_in_any_casing() {
    for token in ["Pass", "pass", "PASS", "pAsS"] {
        let parsed = PassthroughModeDef::parse(token).unwrap();
        assert_eq!(parsed, PassthroughModeDef(PassthroughMode::Pass));
    }
}

#[test]
fn other_tokens_are_rejected_naming_the_token() {
    for token in ["blocked", "pas", "", "Block ", "blok", "passs", "b"] {
        match PassthroughModeDef::parse(token) {
            Err(ConfigError::InvalidPassthroughMode { token: named }) => {
                assert_eq!(named, token);
            }
            other => panic!("token {:?} was not rejected as a mode token: {:?}", token, other),
        }
    }
    let err = PassthroughModeDef::parse("foo").err().unwrap();
    assert_eq!(err.message(), "Invalid passthrough mode: foo");
}

#[test]
fn absent_settings_tree_fails_with_missing_settings() {
    let err = build_keycloak_layer(None).err().unwrap();
    assert!(matches!(err, ConfigError::MissingSettings));
    assert_eq!(err.message(), "Missing `keycloak_settings` in config");
}

#[test]
fn missing_keycloak_settings_key_fails_with_missing_settings() {
    let tree = ConfigValue::Object(vec![("other_section".to_string(), ConfigValue::Null)]);
    let err = build_keycloak_layer(Some(&tree)).err().unwrap();
    assert!(matches!(err, ConfigError::MissingSettings));
    let err = Settings::from_config(&tree).err().unwrap();
    assert!(matches!(err, ConfigError::MissingSettings));
}

#[test]
fn invalid_url_fails_with_invalid_url_error() {
    let tree = settings_tree("not a url", "Block");
    let err = build_keycloak_layer(Some(&tree)).err().unwrap();
    assert!(matches!(err, ConfigError::InvalidUrl { .. }));
    assert!(err.message().starts_with("Invalid Keycloak server URL: "));
}

#[test]
fn url_that_cannot_carry_a_path_fails_instead_of_panicking() {
    let tree = settings_tree("mailto:admin@example.com", "Block");
    let err = build_keycloak_layer(Some(&tree)).err().unwrap();
    assert!(matches!(err, ConfigError::InvalidUrl { .. }));
}

#[test]
fn valid_settings_tree_builds_a_layer() {
    let tree = settings_tree("https://sso.example.com", "Block");
    with_runtime(|| {
        let built = build_keycloak_layer(Some(&tree));
        assert!(built.is_ok());
    });
}

#[test]
fn built_layer_records_the_configured_values() {
    let tree = settings_tree("https://sso.example.com", "Block");
    with_runtime(|| {
        let layer = build_keycloak_layer(Some(&tree)).unwrap();
        assert_eq!(layer.server_url(), "https://sso.example.com");
        assert_eq!(layer.realm(), "myrealm");
        assert_eq!(layer.passthrough_mode(), PassthroughMode::Block);
        assert!(!layer.persist_raw_claims());
        assert_eq!(layer.expected_audiences(), &vec!["account".to_string()]);
    });
}

#[test]
fn initializer_name_is_the_fixed_literal() {
    let initializer = KeycloakAuthInitializer;
    assert_eq!(initializer.name(), "keycloak_auth");
}

#[test]
fn two_builds_from_equal_settings_agree() {
    let tree = settings_tree("https://sso.example.com", "Block");
    let first = Settings::from_config(&tree).unwrap();
    let second = Settings::from_config(&tree).unwrap();
    assert_eq!(first, second);
    with_runtime(|| {
        let one = build_keycloak_layer(Some(&tree)).unwrap();
        let two = build_keycloak_layer(Some(&tree)).unwrap();
        assert_eq!(one.server_url(), two.server_url());
        assert_eq!(one.realm(), two.realm());
        assert_eq!(one.passthrough_mode(), two.passthrough_mode());
        assert_eq!(one.persist_raw_claims(), two.persist_raw_claims());
        assert_eq!(one.expected_audiences(), two.expected_audiences());
    });
}

#[test]
fn extraction_reads_every_field() {
    let tree = settings_tree("https://sso.example.com", "Pass");
    let settings = Settings::from_config(&tree).unwrap();
    let ks = settings.keycloak_settings;
    assert_eq!(ks.url, "https://sso.example.com");
    assert_eq!(ks.realm, "myrealm");
    assert_eq!(ks.expected_audiences, vec!["account".to_string()]);
    assert_eq!(ks.passthrough_mode, PassthroughModeDef(PassthroughMode::Pass));
    assert!(!ks.persist_raw_claims);
}

#[test]
fn section_that_is_no_mapping_is_rejected() {
    let tree = tree_with_section(text("flat"));
    let err = build_keycloak_layer(Some(&tree)).err().unwrap();
    assert_eq!(
        err.message(),
        "Invalid settings: `keycloak_settings` must be a mapping"
    );
}

#[test]
fn missing_field_is_named() {
    let mut section = keycloak_section("https://sso.example.com", "Block");
    section.retain(|(k, _)| k != "url");
    let err = build_keycloak_layer(Some(&tree_with_section(ConfigValue::Object(section))))
        .err().unwrap();
    assert_eq!(err.message(), "Invalid settings: missing field `url`");
}

#[test]
fn ill_typed_fields_are_named_in_order() {
    let cases = [
        ("url", ConfigValue::Bool(true), "Invalid settings: field `url` must be a string"),
        ("realm", ConfigValue::Null, "Invalid settings: field `realm` must be a string"),
        (
            "expected_audiences",
            text("account"),
            "Invalid settings: field `expected_audiences` must be a list of strings",
        ),
        (
            "expected_audiences",
            ConfigValue::Array(vec![text("account"), ConfigValue::Number("3".to_string())]),
            "Invalid settings: field `expected_audiences` must be a list of strings",
        ),
        (
            "passthrough_mode",
            ConfigValue::Bool(false),
            "Invalid settings: field `passthrough_mode` must be a string",
        ),
        (
            "persist_raw_claims",
            text("false"),
            "Invalid settings: field `persist_raw_claims` must be a boolean",
        ),
    ];
    for (field, replacement, expected) in cases {
        let mut section = keycloak_section("https://sso.example.com", "Block");
        for entry in section.iter_mut() {
            if entry.0 == field {
                entry.1 = replacement;
                break;
            }
        }
        let err = build_keycloak_layer(Some(&tree_with_section(ConfigValue::Object(section))))
            .err().unwrap();
        assert_eq!(err.message(), expected, "replacing {}", field);
    }
}

#[test]
fn bad_mode_token_inside_tree_is_reported_with_the_token() {
    let tree = settings_tree("https://sso.example.com", "reject");
    let err = build_keycloak_layer(Some(&tree)).err().unwrap();
    match err {
        ConfigError::InvalidPassthroughMode { ref token } => assert_eq!(token, "reject"),
        ref other => panic!("unexpected error: {:?}", other),
    }
    assert_eq!(err.message(), "Invalid passthrough mode: reject");
}

#[test]
fn lookup_takes_the_earliest_entry_and_misses_cleanly() {
    let tree = ConfigValue::Object(vec![
        ("k".to_string(), text("first")),
        ("k".to_string(), text("second")),
    ]);
    assert_eq!(tree.get("k"), Some(&text("first")));
    assert_eq!(tree.get("absent"), None);
    assert_eq!(text("scalar").get("k"), None);
}

#[test]
fn after_routes_wraps_the_router_or_reports_the_fault() {
    let tree = settings_tree("https://sso.example.com", "Block");
    let initializer = KeycloakAuthInitializer;
    with_runtime(|| {
        let wrapped = initializer.after_routes(axum::Router::new(), Some(&tree));
        assert!(wrapped.is_ok());
    });
    let failed = initializer.after_routes(axum::Router::new(), None);
    let err = failed.err().unwrap();
    assert_eq!(
        KeycloakAuthInitializer::failure_message(&err),
        "Failed to create Keycloak layer: Missing `keycloak_settings` in config"
    );
}

#[test]
fn from_context_builds_and_attaches() {
    let tree = settings_tree("https://sso.example.com", "Pass");
    with_runtime(|| {
        let keycloak = Keycloak::from_context(Some(&tree)).unwrap();
        let _router = keycloak.attach(axum::Router::new());
    });
    assert!(Keycloak::from_context(None).is_err());
}
