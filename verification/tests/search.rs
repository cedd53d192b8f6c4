use zed_lib::sql::{SEARCH_REGISTRY_SQL, SEMANTIC_SEARCH_SQL};
use zed_lib::error::{Field, RegistryError};
use zed_lib::identity::FederatedIdentity;
use zed_lib::registry::search::{
    normalize_search_query, search_limit, search_principal, validate_embedding_fields,
    validate_search_model,
};

#[test]
fn search_limits_are_clamped() {
    assert_eq!(search_limit(0), 1);
    assert_eq!(search_limit(1), 1);
    assert_eq!(search_limit(42), 42);
    assert_eq!(search_limit(100), 100);
    assert_eq!(search_limit(101), 100);
    assert_eq!(search_limit(u64::MAX), 100);
}

#[test]
fn search_queries_are_trimmed_and_bounded() {
    assert_eq!(normalize_search_query("  http kit \n"), "http kit");
    assert_eq!(normalize_search_query("\u{3000}"), "");
    let long = "é".repeat(250);
    let normalized = normalize_search_query(&format!(" {long} "));
    assert_eq!(normalized.chars().count(), 200);
    assert_eq!(normalized, "é".repeat(200));
}

#[test]
fn anonymous_searches_have_no_principal() {
    assert_eq!(search_principal(None), (String::new(), String::new()));
    let identity = FederatedIdentity {
        issuer: "shared-auth".into(),
        subject: "sub".into(),
        supabase_user_id: None,
        email: None,
        display_name: None,
        avatar_url: None,
    };
    assert_eq!(
        search_principal(Some(&identity)),
        ("shared-auth".to_string(), "sub".to_string())
    );
}

#[test]
fn embedding_fields_are_checked_in_order() {
    let hash = "0".repeat(64);
    assert_eq!(validate_embedding_fields("package", "text-embedding-3-small", &hash), Ok(()));
    assert_eq!(
        validate_embedding_fields("user", "", "x"),
        Err(RegistryError::InvalidEntityType)
    );
    assert_eq!(
        validate_embedding_fields("org", " ", "x"),
        Err(RegistryError::InvalidField(Field::EmbeddingModel))
    );
    assert_eq!(
        validate_embedding_fields("project", "m", "x"),
        Err(RegistryError::InvalidChecksum)
    );
    assert_eq!(validate_search_model("m"), Ok(()));
    assert_eq!(
        validate_search_model(&"m".repeat(256)),
        Err(RegistryError::InvalidField(Field::EmbeddingModel))
    );
}

#[test]
fn search_statements_keep_non_public_packages_to_members() {
    assert!(SEARCH_REGISTRY_SQL
        .contains("WHERE (p.visibility = 'public' OR p.org_id IN (SELECT org_id FROM visible_orgs))"));
    assert!(SEARCH_REGISTRY_SQL.contains("WHERE o.id IN (SELECT org_id FROM visible_orgs)"));
    assert!(SEARCH_REGISTRY_SQL.contains("LIMIT $4"));
    assert!(SEMANTIC_SEARCH_SQL.contains("embedded_package.visibility = 'public'"));
    assert!(SEMANTIC_SEARCH_SQL.contains("LIMIT $5"));
}
