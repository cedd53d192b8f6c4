use zed_lib::migration::{
    migration_lookup_sql, migration_record_sql, REGISTRY_FEATURES_MIGRATION,
    REGISTRY_FEATURES_SQL,
};

#[test]
fn migration_contains_every_requested_registry_entity() {
    for table in [
        "users",
        "org",
        "projects",
        "package",
        "package_licenses",
        "entity_embeddings",
        "package_uploads",
        "package_downloads",
    ] {
        assert!(REGISTRY_FEATURES_SQL.contains(table), "missing {table}");
    }
}

#[test]
fn migration_keeps_exact_visibility_boundaries() {
    assert!(REGISTRY_FEATURES_SQL.contains("interval '10 days'"));
    assert!(REGISTRY_FEATURES_SQL.contains("OLD.download_count > 50"));
    assert!(!REGISTRY_FEATURES_SQL.contains("OLD.download_count >= 50"));
}

#[test]
fn migration_serializes_downloads_with_visibility_updates() {
    assert!(
        REGISTRY_FEATURES_SQL
            .contains("UPDATE package\n            SET download_count = download_count + 1")
    );
    assert!(REGISTRY_FEATURES_SQL.contains("package_visibility_guard"));
}

#[test]
fn sessions_and_passwords_are_not_registry_columns() {
    let lowered = REGISTRY_FEATURES_SQL.to_lowercase();
    assert!(!lowered.contains("password_hash"));
    assert!(!lowered.contains("refresh_token"));
    assert!(!lowered.contains("session_token"));
}

#[test]
fn migration_bookkeeping_statements() {
    assert_eq!(
        migration_lookup_sql(),
        "SELECT version FROM zed_schema_migrations WHERE version = '20260809_000002_registry_artifacts_search_visibility'"
    );
    assert_eq!(
        migration_record_sql(),
        format!("INSERT INTO zed_schema_migrations(version) VALUES ('{REGISTRY_FEATURES_MIGRATION}')")
    );
}
