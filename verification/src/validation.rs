//! Shape checks on the text that registry operations accept.

use vstd::prelude::*;
use crate::error::{Field, RegistryError};
use crate::text::{
    ByteClass, all_bytes_in, byte_len, in_class, bytes_all_in, is_blank, lemma_ascii_char_is_encoded, spec_trim,
    str_eq, trim,
};

verus! {

/// Maximum length of a package name, in bytes.
pub const MAX_PACKAGE_NAME_BYTES: usize = 128usize;

/// Number of dimensions of a stored embedding.
pub const EMBEDDING_DIMENSIONS: usize = 1536usize;

/// A package name: non-empty, at most 128 bytes, no surrounding whitespace, and
/// only ASCII letters, digits, `-`, `_` and `.`.
pub open spec fn is_valid_package_name(name: Seq<char>) -> bool {
    &&& name.len() > 0
    &&& byte_len(name) <= MAX_PACKAGE_NAME_BYTES
    &&& spec_trim(name) == name
    &&& all_bytes_in(name, ByteClass::PackageName)
}

/// A required text value: not blank, and at most `max_len` bytes long.
pub open spec fn is_nonempty_within(value: Seq<char>, max_len: nat) -> bool {
    !is_blank(value) && byte_len(value) <= max_len
}

/// The archive formats that uploads and downloads share.
pub open spec fn is_archive_format(format: Seq<char>) -> bool {
    ||| format == "zip"@
    ||| format == "tar"@
    ||| format == "tar_gz"@
    ||| format == "tar_zst"@
}

/// The states of an uploaded artifact.
pub open spec fn is_upload_state(state: Seq<char>) -> bool {
    ||| state == "pending"@
    ||| state == "uploaded"@
    ||| state == "verified"@
    ||| state == "published"@
    ||| state == "rejected"@
    ||| state == "deleted"@
}

/// The channels an artifact can be downloaded through.
pub open spec fn is_download_source(source: Seq<char>) -> bool {
    ||| source == "cli"@
    ||| source == "web"@
    ||| source == "api"@
    ||| source == "mirror"@
}

/// The kinds of entity that can carry an embedding.
pub open spec fn is_entity_type(entity_type: Seq<char>) -> bool {
    ||| entity_type == "org"@
    ||| entity_type == "project"@
    ||| entity_type == "package"@
}

/// A SHA-256 checksum: exactly 64 lowercase hexadecimal characters.
pub open spec fn is_sha256_hex(checksum: Seq<char>) -> bool {
    byte_len(checksum) == 64 && all_bytes_in(checksum, ByteClass::LowerHex)
}

/// Accept a package name that cannot escape registry coordinates.
pub fn validate_package_name(name: &str) -> (r: Result<(), RegistryError>)
    ensures
        r == (if is_valid_package_name(name@) {
            Ok(())
        } else {
            Err(RegistryError::InvalidPackageName)
        }),
{
    if !name.is_empty() && name.as_bytes().len() <= MAX_PACKAGE_NAME_BYTES && str_eq(
        trim(name),
        name,
    ) && bytes_all_in(name, ByteClass::PackageName) {
        Ok(())
    } else {
        Err(RegistryError::InvalidPackageName)
    }
}

/// Accept a value that is not blank and at most `max_len` bytes long; refuse
/// it as an invalid `field` otherwise.
pub fn validate_nonempty(field: Field, value: &str, max_len: usize) -> (r: Result<
    (),
    RegistryError,
>)
    ensures
        r == (if is_nonempty_within(value@, max_len as nat) {
            Ok(())
        } else {
            Err(RegistryError::InvalidField(field))
        }),
{
    if !trim(value).is_empty() && value.as_bytes().len() <= max_len {
        Ok(())
    } else {
        Err(RegistryError::InvalidField(field))
    }
}

/// Accept one of the archive formats `zip`, `tar`, `tar_gz`, `tar_zst`.
pub fn validate_archive_format(format: &str) -> (r: Result<(), RegistryError>)
    ensures
        r == (if is_archive_format(format@) {
            Ok(())
        } else {
            Err(RegistryError::InvalidArchiveFormat)
        }),
{
    if str_eq(format, "zip") || str_eq(format, "tar") || str_eq(format, "tar_gz") || str_eq(
        format,
        "tar_zst",
    ) {
        Ok(())
    } else {
        Err(RegistryError::InvalidArchiveFormat)
    }
}

/// Accept one of the upload states.
pub fn validate_upload_state(state: &str) -> (r: Result<(), RegistryError>)
    ensures
        r == (if is_upload_state(state@) {
            Ok(())
        } else {
            Err(RegistryError::InvalidUploadState)
        }),
{
    if str_eq(state, "pending") || str_eq(state, "uploaded") || str_eq(state, "verified")
        || str_eq(state, "published") || str_eq(state, "rejected") || str_eq(state, "deleted") {
        Ok(())
    } else {
        Err(RegistryError::InvalidUploadState)
    }
}

/// Accept one of the download sources `cli`, `web`, `api`, `mirror`.
pub fn validate_download_source(source: &str) -> (r: Result<(), RegistryError>)
    ensures
        r == (if is_download_source(source@) {
            Ok(())
        } else {
            Err(RegistryError::InvalidDownloadSource)
        }),
{
    if str_eq(source, "cli") || str_eq(source, "web") || str_eq(source, "api") || str_eq(
        source,
        "mirror",
    ) {
        Ok(())
    } else {
        Err(RegistryError::InvalidDownloadSource)
    }
}

/// Accept one of the embedding entity types `org`, `project`, `package`.
pub fn validate_entity_type(entity_type: &str) -> (r: Result<(), RegistryError>)
    ensures
        r == (if is_entity_type(entity_type@) {
            Ok(())
        } else {
            Err(RegistryError::InvalidEntityType)
        }),
{
    if str_eq(entity_type, "org") || str_eq(entity_type, "project") || str_eq(
        entity_type,
        "package",
    ) {
        Ok(())
    } else {
        Err(RegistryError::InvalidEntityType)
    }
}

/// Accept an absent checksum, or one of 64 lowercase hexadecimal characters.
pub fn validate_sha256(checksum: Option<&str>) -> (r: Result<(), RegistryError>)
    ensures
        r == (match checksum {
            None => Ok(()),
            Some(c) => if is_sha256_hex(c@) {
                Ok(())
            } else {
                Err(RegistryError::InvalidChecksum)
            },
        }),
{
    match checksum {
        None => Ok(()),
        Some(c) => {
            if c.as_bytes().len() == 64 && bytes_all_in(c, ByteClass::LowerHex) {
                Ok(())
            } else {
                Err(RegistryError::InvalidChecksum)
            }
        },
    }
}

/// Accept an embedding of exactly 1536 dimensions; `dimensions` is its length.
pub fn validate_embedding_dimensions(dimensions: usize) -> (r: Result<(), RegistryError>)
    ensures
        r == (if dimensions == EMBEDDING_DIMENSIONS {
            Ok(())
        } else {
            Err(RegistryError::EmbeddingDimensions(dimensions))
        }),
{
    if dimensions != EMBEDDING_DIMENSIONS {
        return Err(RegistryError::EmbeddingDimensions(dimensions));
    }
    Ok(())
}

/// A valid package name holds no path separator (`/`), so it cannot name a
/// location outside its organization.
pub proof fn lemma_valid_package_name_has_no_separator(name: Seq<char>)
    requires
        is_valid_package_name(name),
    ensures
        !name.contains('/'),
{
    if name.contains('/') {
        let i = choose|i: int| 0 <= i < name.len() && name[i] == '/';
        lemma_ascii_char_is_encoded(name, i);
        let x = vstd::utf8::encode_utf8(name);
        let j = choose|j: int| 0 <= j < x.len() && x[j] == ('/' as u32) as u8;
        assert(in_class(ByteClass::PackageName, x[j]));
    }
}

} // verus!
