//! Named SQL texts that the data plane sends.
//!
//! The visibility rules of search and the row-locking of the visibility
//! transition live in these statements; the parameters are bound by the caller.

use vstd::prelude::*;

verus! {

/// Visibility-aware text search: `$1`/`$2` are the caller's issuer and subject (empty for anonymous callers), `$3` the normalized query, `$4` the limit. Anonymous callers see public packages only; authenticated callers additionally see the organizations, projects and packages of their organizations.
pub const SEARCH_REGISTRY_SQL: &'static str = r#"
WITH actor AS (
    SELECT id
    FROM users
    WHERE auth_issuer = $1 AND shared_auth_subject = $2
), visible_orgs AS (
    SELECT org_id
    FROM org_members
    WHERE user_id = (SELECT id FROM actor)
), hits AS (
    SELECT
        'org'::TEXT AS entity_type,
        o.id AS entity_id,
        o.slug AS label,
        o.description,
        ts_rank_cd(o.search_document, websearch_to_tsquery('simple', $3))::DOUBLE PRECISION AS score
    FROM org o
    WHERE o.id IN (SELECT org_id FROM visible_orgs)
      AND (
          $3 = '' OR o.search_document @@ websearch_to_tsquery('simple', $3)
          OR o.slug ILIKE '%' || $3 || '%'
          OR o.name ILIKE '%' || $3 || '%'
      )

    UNION ALL

    SELECT
        'project'::TEXT,
        p.id,
        o.slug || '/' || p.slug,
        p.description,
        ts_rank_cd(p.search_document, websearch_to_tsquery('simple', $3))::DOUBLE PRECISION
    FROM projects p
    JOIN org o ON o.id = p.org_id
    WHERE p.org_id IN (SELECT org_id FROM visible_orgs)
      AND (
          $3 = '' OR p.search_document @@ websearch_to_tsquery('simple', $3)
          OR p.slug ILIKE '%' || $3 || '%'
          OR p.name ILIKE '%' || $3 || '%'
      )

    UNION ALL

    SELECT
        'package'::TEXT,
        p.id,
        o.slug || '/' || p.name,
        p.description,
        ts_rank_cd(p.search_document, websearch_to_tsquery('simple', $3))::DOUBLE PRECISION
    FROM package p
    JOIN org o ON o.id = p.org_id
    WHERE (p.visibility = 'public' OR p.org_id IN (SELECT org_id FROM visible_orgs))
      AND (
          $3 = '' OR p.search_document @@ websearch_to_tsquery('simple', $3)
          OR p.name ILIKE '%' || $3 || '%'
          OR p.repo_url ILIKE '%' || $3 || '%'
      )
)
SELECT entity_type, entity_id, label, description, score
FROM hits
ORDER BY score DESC, label ASC
LIMIT $4
"#;

/// Visibility-aware cosine search: `$1`/`$2` are the caller's issuer and subject, `$3` the query vector, `$4` the model, `$5` the limit.
pub const SEMANTIC_SEARCH_SQL: &'static str = r#"
WITH actor AS (
    SELECT id
    FROM users
    WHERE auth_issuer = $1 AND shared_auth_subject = $2
), visible_orgs AS (
    SELECT org_id
    FROM org_members
    WHERE user_id = (SELECT id FROM actor)
)
SELECT
    e.entity_type,
    e.entity_id,
    CASE e.entity_type
        WHEN 'org' THEN embedded_org.slug
        WHEN 'project' THEN project_org.slug || '/' || embedded_project.slug
        WHEN 'package' THEN package_org.slug || '/' || embedded_package.name
    END AS label,
    CASE e.entity_type
        WHEN 'org' THEN embedded_org.description
        WHEN 'project' THEN embedded_project.description
        WHEN 'package' THEN embedded_package.description
    END AS description,
    (1 - (e.embedding <=> $3::vector))::DOUBLE PRECISION AS score
FROM entity_embeddings e
LEFT JOIN org embedded_org ON embedded_org.id = e.org_id
LEFT JOIN projects embedded_project ON embedded_project.id = e.project_id
LEFT JOIN org project_org ON project_org.id = embedded_project.org_id
LEFT JOIN package embedded_package ON embedded_package.id = e.package_id
LEFT JOIN org package_org ON package_org.id = embedded_package.org_id
WHERE e.model = $4
  AND (
      (e.entity_type = 'org' AND e.org_id IN (SELECT org_id FROM visible_orgs))
      OR (e.entity_type = 'project' AND embedded_project.org_id IN (SELECT org_id FROM visible_orgs))
      OR (
          e.entity_type = 'package'
          AND (
              embedded_package.visibility = 'public'
              OR embedded_package.org_id IN (SELECT org_id FROM visible_orgs)
          )
      )
  )
ORDER BY e.embedding <=> $3::vector
LIMIT $5
"#;

/// Store (or refresh) an embedding: `$1` entity type, `$2` entity id, `$3` model, `$4` vector, `$5` source text, `$6` source hash, `$7` metadata.
pub const UPSERT_EMBEDDING_SQL: &'static str = r#"
INSERT INTO entity_embeddings (
    entity_type,
    org_id,
    project_id,
    package_id,
    model,
    embedding,
    source_text,
    source_hash,
    metadata
) VALUES (
    $1,
    CASE WHEN $1 = 'org' THEN $2::UUID END,
    CASE WHEN $1 = 'project' THEN $2::UUID END,
    CASE WHEN $1 = 'package' THEN $2::UUID END,
    $3,
    $4::vector,
    $5,
    $6,
    $7::jsonb
)
ON CONFLICT (entity_type, entity_id, model, source_hash)
DO UPDATE SET
    embedding = EXCLUDED.embedding,
    source_text = EXCLUDED.source_text,
    metadata = EXCLUDED.metadata,
    updated_at = clock_timestamp()
RETURNING id
"#;

/// Upsert the registry-local projection of a verified principal and return its id: `$1` proposed id, `$2` issuer, `$3` subject, `$4` Supabase user id, `$5` email, `$6` display name, `$7` avatar URL.
pub const ENSURE_FEDERATED_USER_SQL: &'static str = r#"
INSERT INTO users (
    id,
    auth_issuer,
    shared_auth_subject,
    supabase_user_id,
    email,
    display_name,
    avatar_url,
    settings,
    created_at,
    updated_at
) VALUES (
    $1,
    $2,
    $3,
    $4::UUID,
    $5,
    $6,
    $7,
    '{}'::jsonb,
    clock_timestamp(),
    clock_timestamp()
)
ON CONFLICT (shared_auth_subject)
DO UPDATE SET
    auth_issuer = EXCLUDED.auth_issuer,
    supabase_user_id = coalesce(EXCLUDED.supabase_user_id, users.supabase_user_id),
    email = coalesce(EXCLUDED.email, users.email),
    display_name = coalesce(EXCLUDED.display_name, users.display_name),
    avatar_url = coalesce(EXCLUDED.avatar_url, users.avatar_url),
    updated_at = clock_timestamp()
RETURNING id
"#;

/// The liveness query.
pub const HEALTHCHECK_SQL: &'static str = "SELECT 1";

/// The query that reads whether the session is read-only.
pub const READ_ONLY_SETTING_SQL: &'static str = "SELECT current_setting('default_transaction_read_only') AS setting";

/// The query that draws a fresh identifier from Postgres.
pub const NEW_UUID_SQL: &'static str = "SELECT gen_random_uuid() AS id";

/// Lock a package row (`$1` organization id, `$2` name) and read its visibility, completed downloads and age in microseconds.
pub const LOCK_PACKAGE_VISIBILITY_SQL: &'static str = "SELECT id, visibility, download_count, GREATEST(0, floor(EXTRACT(EPOCH FROM (clock_timestamp() - created_at)) * 1000000))::BIGINT AS age_micros FROM package WHERE org_id = $1 AND name = $2 FOR UPDATE";

/// Make package `$1` public, recording user `$2` as the one who changed its visibility.
pub const PUBLISH_PACKAGE_SQL: &'static str = "UPDATE package SET visibility = 'public', first_public_at = coalesce(first_public_at, clock_timestamp()), visibility_changed_at = clock_timestamp(), visibility_changed_by_user_id = $2, updated_at = clock_timestamp() WHERE id = $1";

/// Demote the current primary license of package `$1`.
pub const CLEAR_PRIMARY_LICENSE_SQL: &'static str = "UPDATE package_licenses SET is_primary = false, updated_at = clock_timestamp() WHERE package_id = $1 AND is_primary";

/// Derive the SHA-256 digest (hex) of invitation token `$1`.
pub const HASH_TOKEN_SQL: &'static str = "SELECT encode(digest($1, 'sha256'), 'hex') AS token_hash";

} // verus!
