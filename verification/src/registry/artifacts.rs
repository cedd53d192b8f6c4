//! Artifact uploads and downloads.

use vstd::prelude::*;
use sea_orm::prelude::{Json, Uuid};
use crate::error::{Field, RegistryError};
use crate::text::str_eq;
use crate::validation::{
    is_archive_format, is_download_source, is_nonempty_within, is_sha256_hex, is_upload_state,
    validate_archive_format, validate_download_source, validate_nonempty, validate_sha256,
    validate_upload_state,
};

verus! {

/// Maximum length, in bytes, of an upload's version.
pub const MAX_VERSION_BYTES: usize = 255usize;

/// Maximum length, in bytes, of a storage backend name.
pub const MAX_STORAGE_BACKEND_BYTES: usize = 64usize;

/// Maximum length, in bytes, of a storage bucket name.
pub const MAX_STORAGE_BUCKET_BYTES: usize = 255usize;

/// Maximum length, in bytes, of a storage key.
pub const MAX_STORAGE_KEY_BYTES: usize = 2048usize;

/// An artifact upload to register for a package.
#[derive(Clone, Debug, PartialEq)]
pub struct PackageUploadInput {
    pub source_upload_id: Option<Uuid>,
    pub version: String,
    pub archive_format: String,
    pub state: String,
    pub storage_backend: String,
    pub storage_bucket: String,
    pub storage_key: String,
    pub original_filename: Option<String>,
    pub size_bytes: i64,
    pub sha256: String,
    pub vcs_tag: Option<String>,
    pub vcs_commit: Option<String>,
    pub metadata: Json,
}

/// One artifact delivery to record. It carries hashes only: no raw network or
/// session data.
#[derive(Clone, Debug, PartialEq, Eq)]
pub struct PackageDownloadInput {
    pub upload_id: Uuid,
    pub request_id: Option<Uuid>,
    pub source: String,
    pub bytes_served: i64,
    pub completed: bool,
    pub client_fingerprint_hash: Option<Vec<u8>>,
    pub user_agent_hash: Option<Vec<u8>>,
}

/// The checks an upload passes, in order; the first that fails is reported.
pub open spec fn spec_validate_upload(input: PackageUploadInput) -> Result<(), RegistryError> {
    if !is_nonempty_within(input.version@, MAX_VERSION_BYTES as nat) {
        Err(RegistryError::InvalidField(Field::Version))
    } else if !is_archive_format(input.archive_format@) {
        Err(RegistryError::InvalidArchiveFormat)
    } else if !is_upload_state(input.state@) {
        Err(RegistryError::InvalidUploadState)
    } else if !is_nonempty_within(input.storage_backend@, MAX_STORAGE_BACKEND_BYTES as nat) {
        Err(RegistryError::InvalidField(Field::StorageBackend))
    } else if !is_nonempty_within(input.storage_bucket@, MAX_STORAGE_BUCKET_BYTES as nat) {
        Err(RegistryError::InvalidField(Field::StorageBucket))
    } else if !is_nonempty_within(input.storage_key@, MAX_STORAGE_KEY_BYTES as nat) {
        Err(RegistryError::InvalidField(Field::StorageKey))
    } else if !is_sha256_hex(input.sha256@) {
        Err(RegistryError::InvalidChecksum)
    } else if input.size_bytes <= 0 {
        Err(RegistryError::NonPositiveUploadSize)
    } else {
        Ok(())
    }
}

impl PackageUploadInput {
    /// Accept an upload whose version, archive format, state, storage
    /// coordinates, checksum and (positive) size are well formed.
    pub fn validate(&self) -> (r: Result<(), RegistryError>)
        ensures
            r == spec_validate_upload(*self),
    {
        validate_nonempty(Field::Version, self.version.as_str(), MAX_VERSION_BYTES)?;
        validate_archive_format(self.archive_format.as_str())?;
        validate_upload_state(self.state.as_str())?;
        validate_nonempty(
            Field::StorageBackend,
            self.storage_backend.as_str(),
            MAX_STORAGE_BACKEND_BYTES,
        )?;
        validate_nonempty(
            Field::StorageBucket,
            self.storage_bucket.as_str(),
            MAX_STORAGE_BUCKET_BYTES,
        )?;
        validate_nonempty(Field::StorageKey, self.storage_key.as_str(), MAX_STORAGE_KEY_BYTES)?;
        validate_sha256(Some(self.sha256.as_str()))?;
        if self.size_bytes <= 0 {
            return Err(RegistryError::NonPositiveUploadSize);
        }
        Ok(())
    }
}

/// Which lifecycle timestamps an upload registered in a given state receives.
#[derive(Clone, Copy, Debug, PartialEq, Eq, Structural)]
pub struct UploadStamps {
    /// Every state but `pending` has been uploaded.
    pub uploaded: bool,
    /// `verified` and `published` uploads have been verified.
    pub verified: bool,
    /// Only `published` uploads have been published.
    pub published: bool,
}

/// The lifecycle timestamps an upload registered in `state` receives.
pub open spec fn spec_upload_stamps(state: Seq<char>) -> UploadStamps {
    UploadStamps {
        uploaded: state != "pending"@,
        verified: state == "verified"@ || state == "published"@,
        published: state == "published"@,
    }
}

/// The lifecycle timestamps an upload registered in `state` receives.
pub fn upload_stamps(state: &str) -> (r: UploadStamps)
    ensures
        r == spec_upload_stamps(state@),
{
    let published = str_eq(state, "published");
    UploadStamps {
        uploaded: !str_eq(state, "pending"),
        verified: str_eq(state, "verified") || published,
        published,
    }
}

/// Lifecycle timestamps are nested: a published upload is verified, and a
/// verified upload is uploaded.
pub proof fn lemma_upload_stamps_are_nested(state: Seq<char>)
    ensures
        spec_upload_stamps(state).published ==> spec_upload_stamps(state).verified,
        spec_upload_stamps(state).verified ==> spec_upload_stamps(state).uploaded,
{
    reveal_strlit("pending");
    reveal_strlit("verified");
    reveal_strlit("published");
    assert("pending"@[0] != "verified"@[0]);
    assert("pending"@[1] != "published"@[1]);
}

/// The checks a download record passes, in order.
pub open spec fn spec_validate_download(input: PackageDownloadInput) -> Result<(), RegistryError> {
    if !is_download_source(input.source@) {
        Err(RegistryError::InvalidDownloadSource)
    } else if input.bytes_served < 0 {
        Err(RegistryError::NegativeBytesServed)
    } else {
        Ok(())
    }
}

impl PackageDownloadInput {
    /// Accept a download from a known source with a non-negative byte count.
    pub fn validate(&self) -> (r: Result<(), RegistryError>)
        ensures
            r == spec_validate_download(*self),
    {
        validate_download_source(self.source.as_str())?;
        if self.bytes_served < 0 {
            return Err(RegistryError::NegativeBytesServed);
        }
        Ok(())
    }
}

/// Who may download from a package with the given visibility: anyone from a
/// public package; otherwise only an authenticated user, whose membership of
/// the package's organization must then be checked.
pub open spec fn spec_download_access(visibility: Seq<char>, user_id: Option<Uuid>) -> Result<
    Option<Uuid>,
    RegistryError,
> {
    if visibility == "public"@ {
        Ok(None)
    } else {
        match user_id {
            Some(user) => Ok(Some(user)),
            None => Err(RegistryError::AuthenticationRequired),
        }
    }
}

/// Decide access to a package with `visibility` for the (optional)
/// downloading user: `Ok(None)` when no check is needed, `Ok(Some(user))` when
/// `user`'s membership of the package's organization must be confirmed.
pub fn download_access(visibility: &str, user_id: Option<Uuid>) -> (r: Result<
    Option<Uuid>,
    RegistryError,
>)
    ensures
        r == spec_download_access(visibility@, user_id),
{
    if str_eq(visibility, "public") {
        return Ok(None);
    }
    match user_id {
        Some(user) => Ok(Some(user)),
        None => Err(RegistryError::AuthenticationRequired),
    }
}

/// Accept a downloader who is a member of the package's organization.
pub fn require_membership(is_member: bool) -> (r: Result<(), RegistryError>)
    ensures
        r == (if is_member {
            Ok(())
        } else {
            Err(RegistryError::MembershipRequired)
        }),
{
    if is_member {
        Ok(())
    } else {
        Err(RegistryError::MembershipRequired)
    }
}

/// The upload row to insert (its id and timestamps are drawn by the caller).
#[derive(Clone, Debug, PartialEq)]
pub struct NewUpload {
    pub package_id: Uuid,
    pub source_upload_id: Option<Uuid>,
    pub version: String,
    pub archive_format: String,
    pub state: String,
    pub uploader_user_id: Option<Uuid>,
    pub storage_backend: String,
    pub storage_bucket: String,
    pub storage_key: String,
    pub original_filename: Option<String>,
    pub size_bytes: i64,
    pub sha256: String,
    pub vcs_tag: Option<String>,
    pub vcs_commit: Option<String>,
    pub metadata: Json,
    /// Which of the uploaded, verified and published timestamps are set.
    pub stamps: UploadStamps,
}

/// Whether `r` is the row that registers `input` for package `package_id`,
/// uploaded by `actor_id`: the input's fields, the actor as uploader, and the
/// lifecycle timestamps of the input's state.
pub open spec fn is_upload_row(
    r: NewUpload,
    input: PackageUploadInput,
    package_id: Uuid,
    actor_id: Uuid,
) -> bool {
    &&& r.package_id == package_id
    &&& r.uploader_user_id == Some(actor_id)
    &&& r.stamps == spec_upload_stamps(input.state@)
    &&& r.source_upload_id == input.source_upload_id
    &&& r.version == input.version
    &&& r.archive_format == input.archive_format
    &&& r.state == input.state
    &&& r.storage_backend == input.storage_backend
    &&& r.storage_bucket == input.storage_bucket
    &&& r.storage_key == input.storage_key
    &&& r.original_filename == input.original_filename
    &&& r.size_bytes == input.size_bytes
    &&& r.sha256 == input.sha256
    &&& r.vcs_tag == input.vcs_tag
    &&& r.vcs_commit == input.vcs_commit
    &&& r.metadata == input.metadata
}

/// The row that registers `input` for package `package_id`, uploaded by
/// `actor_id`.
pub fn plan_new_upload(input: PackageUploadInput, package_id: Uuid, actor_id: Uuid) -> (r:
    NewUpload)
    ensures
        is_upload_row(r, input, package_id, actor_id),
        r.package_id == package_id,
        r.uploader_user_id == Some(actor_id),
        r.stamps.published == (input.state@ == "published"@) && r.stamps.verified == (input.state@
            == "verified"@ || input.state@ == "published"@) && r.stamps.uploaded == (input.state@ != "pending"@),
        r.source_upload_id == input.source_upload_id,

        r.version == input.version,

        r.archive_format == input.archive_format,

        r.state == input.state,

        r.storage_backend == input.storage_backend,

        r.storage_bucket == input.storage_bucket,

        r.storage_key == input.storage_key,

        r.original_filename == input.original_filename,

        r.size_bytes == input.size_bytes,

        r.sha256 == input.sha256,

        r.vcs_tag == input.vcs_tag,

        r.vcs_commit == input.vcs_commit,

        r.metadata == input.metadata,
{
    let stamps = upload_stamps(input.state.as_str());
    NewUpload {
        package_id,
        source_upload_id: input.source_upload_id,
        version: input.version,
        archive_format: input.archive_format,
        state: input.state,
        uploader_user_id: Some(actor_id),
        storage_backend: input.storage_backend,
        storage_bucket: input.storage_bucket,
        storage_key: input.storage_key,
        original_filename: input.original_filename,
        size_bytes: input.size_bytes,
        sha256: input.sha256,
        vcs_tag: input.vcs_tag,
        vcs_commit: input.vcs_commit,
        metadata: input.metadata,
        stamps,
    }
}

/// The download row to insert (its id and time are drawn by the caller).
#[derive(Clone, Debug, PartialEq, Eq)]
pub struct NewDownload {
    pub package_id: Uuid,
    pub upload_id: Uuid,
    pub user_id: Option<Uuid>,
    pub archive_format: String,
    pub source: String,
    /// The request id the client gave; `None` when a fresh one must be drawn.
    pub request_id: Option<Uuid>,
    pub bytes_served: i64,
    pub completed: bool,
    pub client_fingerprint_hash: Option<Vec<u8>>,
    pub user_agent_hash: Option<Vec<u8>>,
}

/// Whether `r` is the row that records `input` as a delivery of upload
/// `upload_id` (of package `package_id`, in `archive_format`) to `user_id`: the
/// archive format is the upload's, the request id is the client's when it gave
/// one, and the remaining fields are the input's.
pub open spec fn is_download_row(
    r: NewDownload,
    input: PackageDownloadInput,
    package_id: Uuid,
    upload_id: Uuid,
    archive_format: String,
    user_id: Option<Uuid>,
) -> bool {
    &&& r.package_id == package_id
    &&& r.upload_id == upload_id
    &&& r.user_id == user_id
    &&& r.archive_format == archive_format
    &&& r.source == input.source
    &&& r.request_id == input.request_id
    &&& r.bytes_served == input.bytes_served
    &&& r.completed == input.completed
    &&& r.client_fingerprint_hash == input.client_fingerprint_hash
    &&& r.user_agent_hash == input.user_agent_hash
}

/// The row that records `input` as a delivery of upload `upload_id`.
pub fn plan_new_download(
    input: PackageDownloadInput,
    package_id: Uuid,
    upload_id: Uuid,
    archive_format: String,
    user_id: Option<Uuid>,
) -> (r: NewDownload)
    ensures
        is_download_row(r, input, package_id, upload_id, archive_format, user_id),
        r.package_id == package_id,
        r.upload_id == upload_id,
        r.user_id == user_id,
        r.archive_format == archive_format,
        r.source == input.source,

        r.request_id == input.request_id,

        r.bytes_served == input.bytes_served,

        r.completed == input.completed,

        r.client_fingerprint_hash == input.client_fingerprint_hash,

        r.user_agent_hash == input.user_agent_hash,
{
    NewDownload {
        package_id,
        upload_id,
        user_id,
        archive_format,
        source: input.source,
        request_id: input.request_id,
        bytes_served: input.bytes_served,
        completed: input.completed,
        client_fingerprint_hash: input.client_fingerprint_hash,
        user_agent_hash: input.user_agent_hash,
    }
}

} // verus!
