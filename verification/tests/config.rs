use schema_admin::config::{
    Configuration, EmailConfig, EmailTemplate, RecordApiConfig, ServerConfig,
};
use schema_admin::guard::{validate, ConfigError, ConfigVersionGuard};
use schema_admin::metadata::{SchemaSnapshot, TableMeta, TableMetadataCache, ViewMeta};

fn api(name: &str, table: Option<&str>) -> RecordApiConfig {
    RecordApiConfig { name: name.to_string(), table_name: table.map(|t| t.to_string()) }
}

fn config_with(apis: Vec<RecordApiConfig>) -> Configuration {
    let mut config = Configuration::empty();
    config.record_apis = apis;
    config
}

fn cache_of(tables: &[&str], views: &[&str]) -> TableMetadataCache {
    let mut cache = TableMetadataCache::new();
    let snapshot = SchemaSnapshot {
        tables: tables
            .iter()
            .map(|n| TableMeta { name: n.to_string(), columns: vec![] })
            .collect(),
        views: views
            .iter()
            .map(|n| ViewMeta { name: n.to_string(), columns: vec![] })
            .collect(),
    };
    cache.invalidate_all(Ok(snapshot)).unwrap();
    cache
}

fn names(config: &Configuration) -> Vec<String> {
    config.record_apis.iter().map(|a| a.name.clone()).collect()
}

#[test]
fn empty_configuration_names_nothing() {
    let config = Configuration::empty();
    assert!(config.server.application_name.is_none());
    assert!(config.server.site_url.is_none());
    assert!(config.email.smtp_host.is_none());
    assert!(config.email.sender_address.is_none());
    assert!(config.record_apis.is_empty());
}

#[test]
fn hash_of_the_empty_configuration() {
    assert_eq!(Configuration::empty().hash(), 6082024272624116885);
}

#[test]
fn hash_of_one_record_api() {
    let config = config_with(vec![api("a", Some("t"))]);
    assert_eq!(config.hash(), 16578807932074606910);
}

#[test]
fn hash_counts_bytes_not_characters() {
    let mut config = Configuration::empty();
    config.server.application_name = Some("\u{e9}".to_string());
    assert_eq!(config.hash(), 10029235695501535394);
}

#[test]
fn hash_tells_fields_apart() {
    let mut a = Configuration::empty();
    a.server.application_name = Some("x".to_string());
    let mut b = Configuration::empty();
    b.server.site_url = Some("x".to_string());
    assert_ne!(a.hash(), b.hash());
    assert_ne!(a.hash(), Configuration::empty().hash());
}

#[test]
fn duplicate_says_the_same() {
    let config = Configuration {
        server: ServerConfig {
            application_name: Some("App".to_string()),
            site_url: Some("https://example.org".to_string()),
        },
        email: EmailConfig {
            smtp_host: Some("mail.example.org".to_string()),
            smtp_port: Some(587),
            smtp_username: Some("user".to_string()),
            smtp_password: Some("pass".to_string()),
            sender_address: Some("noreply@example.org".to_string()),
            sender_name: Some("App".to_string()),
            user_verification_template: Some(EmailTemplate {
                subject: Some("s".to_string()),
                body: None,
            }),
            password_reset_template: None,
            change_email_template: Some(EmailTemplate { subject: None, body: None }),
        },
        record_apis: vec![api("a", Some("t")), api("b", None)],
    };
    let copy = config.duplicate();
    assert_eq!(copy.hash(), config.hash());
    assert_eq!(copy.server.application_name, config.server.application_name);
    assert_eq!(copy.email.smtp_port, Some(587));
    assert_eq!(names(&copy), vec!["a", "b"]);
    assert_eq!(copy.record_apis[0].table_name.as_deref(), Some("t"));
    assert_eq!(copy.record_apis[1].table_name, None);
}

#[test]
fn stripping_removes_the_references_and_keeps_the_rest() {
    let mut config = config_with(vec![
        api("A", Some("T")),
        api("C", Some("other")),
        api("B", Some("T")),
        api("D", None),
    ]);
    config.server.site_url = Some("https://example.org".to_string());
    config.strip_references("T");
    assert_eq!(names(&config), vec!["C", "D"]);
    assert_eq!(config.server.site_url.as_deref(), Some("https://example.org"));
}

#[test]
fn stripping_a_name_that_nothing_exposes_changes_nothing() {
    let mut config = config_with(vec![api("A", Some("T")), api("B", None)]);
    let before = config.hash();
    config.strip_references("absent");
    assert_eq!(names(&config), vec!["A", "B"]);
    assert_eq!(config.hash(), before);
}

#[test]
fn exposes_compares_whole_names() {
    let a = api("A", Some("users"));
    assert!(a.exposes("users"));
    assert!(!a.exposes("user"));
    assert!(!a.exposes("users2"));
    assert!(!api("B", None).exposes(""));
}

#[test]
fn validation_names_the_first_dangling_api() {
    let cache = cache_of(&["t"], &["v"]);
    let ok = config_with(vec![api("a", Some("t")), api("b", Some("v")), api("c", None)]);
    assert!(validate(&ok, &cache).is_ok());
    let bad = config_with(vec![api("a", Some("t")), api("x", Some("gone")), api("y", Some("too"))]);
    match validate(&bad, &cache) {
        Err(ConfigError::Invalid(reason)) => {
            assert_eq!(reason, "Missing table or view for API: x")
        }
        other => panic!("unexpected: {other:?}"),
    }
}

#[test]
fn first_write_needs_no_hash() {
    let cache = cache_of(&["t"], &[]);
    let mut guard = ConfigVersionGuard::new();
    let (initial, hash) = guard.read();
    assert_eq!(hash, Configuration::empty().hash());
    assert!(initial.record_apis.is_empty());
    let config = config_with(vec![api("a", Some("t"))]);
    let expected = config.hash();
    guard.compare_and_update(config, None, &cache).unwrap();
    let (live, hash) = guard.read();
    assert_eq!(hash, expected);
    assert_eq!(names(&live), vec!["a"]);
}

#[test]
fn second_write_without_hash_is_stale() {
    let cache = cache_of(&["t"], &[]);
    let mut guard = ConfigVersionGuard::new();
    guard.compare_and_update(config_with(vec![api("a", Some("t"))]), None, &cache).unwrap();
    let (_, before) = guard.read();
    let r = guard.compare_and_update(Configuration::empty(), None, &cache);
    assert!(matches!(r, Err(ConfigError::Stale)));
    assert_eq!(guard.read().1, before);
}

#[test]
fn stale_write_is_rejected_and_changes_nothing() {
    let cache = cache_of(&["t", "u"], &[]);
    let mut guard = ConfigVersionGuard::new();
    guard.compare_and_update(config_with(vec![api("a", Some("t"))]), None, &cache).unwrap();
    let (_, seen) = guard.read();
    guard
        .compare_and_update(config_with(vec![api("a", Some("t")), api("b", Some("u"))]), Some(seen), &cache)
        .unwrap();
    let (_, moved) = guard.read();
    assert_ne!(seen, moved);
    let r = guard.compare_and_update(config_with(vec![]), Some(seen), &cache);
    assert!(matches!(r, Err(ConfigError::Stale)));
    let (live, hash) = guard.read();
    assert_eq!(hash, moved);
    assert_eq!(names(&live), vec!["a", "b"]);
}

#[test]
fn stale_is_reported_before_invalid() {
    let cache = cache_of(&[], &[]);
    let mut guard = ConfigVersionGuard::new();
    let (_, hash) = guard.read();
    let r = guard.compare_and_update(config_with(vec![api("a", Some("gone"))]), Some(hash + 1), &cache);
    assert!(matches!(r, Err(ConfigError::Stale)));
}

#[test]
fn invalid_write_is_refused_and_changes_nothing() {
    let cache = cache_of(&["t"], &[]);
    let mut guard = ConfigVersionGuard::new();
    let (_, hash) = guard.read();
    let r = guard.compare_and_update(config_with(vec![api("a", Some("gone"))]), Some(hash), &cache);
    match r {
        Err(ConfigError::Invalid(reason)) => {
            assert_eq!(reason, "Missing table or view for API: a")
        }
        other => panic!("unexpected: {other:?}"),
    }
    let (live, after) = guard.read();
    assert_eq!(after, hash);
    assert!(live.record_apis.is_empty());
    // The guard was not written to: a first write is still open.
    guard.compare_and_update(config_with(vec![api("a", Some("t"))]), None, &cache).unwrap();
}
