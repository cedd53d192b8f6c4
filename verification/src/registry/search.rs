//! Visibility-aware search parameters and embedding checks.

use vstd::prelude::*;
use crate::error::{Field, RegistryError};
use crate::identity::FederatedIdentity;
use crate::text::{spec_trim, take_chars, trim};
use crate::validation::{
    is_entity_type, is_nonempty_within, is_sha256_hex, validate_entity_type, validate_nonempty,
    validate_sha256,
};

verus! {

/// Longest text query, in characters, after trimming.
pub const MAX_QUERY_CHARS: usize = 200usize;

/// Smallest number of hits a search returns at most.
pub const MIN_SEARCH_LIMIT: u64 = 1u64;

/// Largest number of hits a search returns at most.
pub const MAX_SEARCH_LIMIT: u64 = 100u64;

/// Maximum length, in bytes, of an embedding model name.
pub const MAX_MODEL_BYTES: usize = 255usize;

/// The requested limit clamped to 1..=100.
pub open spec fn spec_search_limit(limit: u64) -> i64 {
    if limit < MIN_SEARCH_LIMIT {
        MIN_SEARCH_LIMIT as i64
    } else if limit > MAX_SEARCH_LIMIT {
        MAX_SEARCH_LIMIT as i64
    } else {
        limit as i64
    }
}

/// The number of hits a search returns at most: the requested limit clamped
/// to 1..=100.
pub fn search_limit(limit: u64) -> (r: i64)
    ensures
        r == spec_search_limit(limit),
        MIN_SEARCH_LIMIT <= r <= MAX_SEARCH_LIMIT,
{
    let clamped: u64 = if limit < MIN_SEARCH_LIMIT {
        MIN_SEARCH_LIMIT
    } else if limit > MAX_SEARCH_LIMIT {
        MAX_SEARCH_LIMIT
    } else {
        limit
    };
    clamped as i64
}

/// A text query trimmed, then cut to its first 200 characters.
pub open spec fn spec_normalize_search_query(query: Seq<char>) -> Seq<char> {
    let t = spec_trim(query);
    if t.len() <= MAX_QUERY_CHARS { t } else { t.take(MAX_QUERY_CHARS as int) }
}

/// The text query a search runs: trimmed, then cut to 200 characters.
pub fn normalize_search_query(query: &str) -> (r: String)
    ensures
        r@ == spec_normalize_search_query(query@),
        r@.len() <= MAX_QUERY_CHARS,
{
    String::from_str(take_chars(trim(query), MAX_QUERY_CHARS))
}

/// The principal a search runs as: the identity's issuer and subject, or two
/// empty strings for an anonymous caller (who then sees public packages only).
pub fn search_principal(identity: Option<&FederatedIdentity>) -> (r: (String, String))
    ensures
        match identity {
            Some(id) => r.0@ == id.issuer@ && r.1@ == id.subject@,
            None => r.0@ == Seq::<char>::empty() && r.1@ == Seq::<char>::empty(),
        },
{
    match identity {
        Some(id) => (id.issuer.clone(), id.subject.clone()),
        None => (String::new(), String::new()),
    }
}

/// The checks an embedding's entity type, model and source hash pass, in order.
pub open spec fn spec_validate_embedding_fields(
    entity_type: Seq<char>,
    model: Seq<char>,
    source_hash: Seq<char>,
) -> Result<(), RegistryError> {
    if !is_entity_type(entity_type) {
        Err(RegistryError::InvalidEntityType)
    } else if !is_nonempty_within(model, MAX_MODEL_BYTES as nat) {
        Err(RegistryError::InvalidField(Field::EmbeddingModel))
    } else if !is_sha256_hex(source_hash) {
        Err(RegistryError::InvalidChecksum)
    } else {
        Ok(())
    }
}

/// Accept an embedding for an `org`, `project` or `package`, from a named
/// model, over source text with a SHA-256 hash.
pub fn validate_embedding_fields(entity_type: &str, model: &str, source_hash: &str) -> (r: Result<
    (),
    RegistryError,
>)
    ensures
        r == spec_validate_embedding_fields(entity_type@, model@, source_hash@),
{
    validate_entity_type(entity_type)?;
    validate_nonempty(Field::EmbeddingModel, model, MAX_MODEL_BYTES)?;
    validate_sha256(Some(source_hash))
}

/// Accept the model name a semantic search runs against.
pub fn validate_search_model(model: &str) -> (r: Result<(), RegistryError>)
    ensures
        r == (if is_nonempty_within(model@, MAX_MODEL_BYTES as nat) {
            Ok(())
        } else {
            Err(RegistryError::InvalidField(Field::EmbeddingModel))
        }),
{
    validate_nonempty(Field::EmbeddingModel, model, MAX_MODEL_BYTES)
}

} // verus!
