//! The library's error type: why a registry operation was refused.

use vstd::prelude::*;
use crate::policy::PublicTransitionDenied;
use crate::text::{debug_quoted, debug_string, decimal, decimal_string};

verus! {

/// A validated input field, named in "invalid ..." errors.
#[derive(Clone, Copy, Debug, PartialEq, Eq, Structural)]
pub enum Field {
    Version,
    StorageBackend,
    StorageBucket,
    StorageKey,
    Vcs,
    RepositoryUrl,
    AuthenticationIssuer,
    AuthenticationSubject,
    EmbeddingModel,
}

impl Field {
    /// The human-readable name of the field.
    pub open spec fn spec_label(self) -> Seq<char> {
        match self {
            Field::Version => "version"@,
            Field::StorageBackend => "storage backend"@,
            Field::StorageBucket => "storage bucket"@,
            Field::StorageKey => "storage key"@,
            Field::Vcs => "vcs"@,
            Field::RepositoryUrl => "repository URL"@,
            Field::AuthenticationIssuer => "authentication issuer"@,
            Field::AuthenticationSubject => "authentication subject"@,
            Field::EmbeddingModel => "embedding model"@,
        }
    }

    /// The human-readable name of the field.
    pub fn label(&self) -> (r: &'static str)
        ensures
            r@ == self.spec_label(),
    {
        match self {
            Field::Version => "version",
            Field::StorageBackend => "storage backend",
            Field::StorageBucket => "storage bucket",
            Field::StorageKey => "storage key",
            Field::Vcs => "vcs",
            Field::RepositoryUrl => "repository URL",
            Field::AuthenticationIssuer => "authentication issuer",
            Field::AuthenticationSubject => "authentication subject",
            Field::EmbeddingModel => "embedding model",
        }
    }
}

/// Why a registry operation was refused.
#[derive(Clone, Debug, PartialEq, Eq)]
pub enum RegistryError {
    /// A text field is blank or longer than its limit.
    InvalidField(Field),
    InvalidPackageName,
    InvalidArchiveFormat,
    InvalidUploadState,
    InvalidDownloadSource,
    InvalidEntityType,
    /// A SHA-256 checksum is not 64 lowercase hexadecimal characters.
    InvalidChecksum,
    /// An embedding does not have the required number of dimensions; the value
    /// is the number it has.
    EmbeddingDimensions(usize),
    NonPositiveUploadSize,
    NegativeBytesServed,
    AdministratorRequired,
    WriterRequired,
    /// A non-public package was requested without an authenticated user.
    AuthenticationRequired,
    /// A non-public package was requested by a user outside its organization.
    MembershipRequired,
    /// A package's project belongs to another organization.
    ProjectOutsideOrganization,
    /// Only private packages can be converted to public.
    NotPrivate,
    /// The database reported a negative package age.
    NegativePackageAge,
    /// The private-to-public policy refused the transition.
    TransitionDenied(PublicTransitionDenied),
    /// Neither a SPDX expression nor a license name was given.
    LicenseRequired,
    /// The invitation is invalid, expired, already used, or for another email.
    InvalidInvitation,
    /// A token matched both an organization and a project invitation.
    AmbiguousInvitation,
    /// The identity has no verified email.
    VerifiedEmailRequired,
    /// The connection is not read-only; the value is the setting it reported.
    NotReadOnly(String),
    /// The organization named by a request does not exist.
    OrganizationNotFound,
    /// The caller is not a member of the organization.
    MembershipNotFound,
    /// The package named by a request does not exist in its organization.
    PackageNotFound,
    /// The upload named by a download does not exist.
    UploadNotFound,
    /// A public package could not be read back after its visibility was checked.
    PackageDisappearedAfterCheck,
    /// A package could not be read back after it was made public.
    PackageDisappearedAfterUpdate,
    /// The database drew no identifier.
    MissingUuid,
    /// Projecting an identity into the registry returned no user id.
    MissingUserId,
    /// Projecting an identity returned the id of a user that cannot be read.
    UnknownUser,
    /// Storing an embedding returned no id.
    MissingEmbeddingId,
    /// Reading the read-only setting returned no row.
    MissingReadOnlySetting,
    /// An embedding has a dimension that is not a finite number.
    EmbeddingNotFinite,
    /// A registry operation was given an event that does not answer its last action.
    UnexpectedStep,
}

impl RegistryError {
    /// The text reported for the refusal. The age refusal of the visibility
    /// policy has none here: its text gives the age in seconds as a
    /// floating-point number.
    pub open spec fn spec_message(self) -> Option<Seq<char>> {
        match self {
            RegistryError::InvalidField(field) => Some("invalid "@ + field.spec_label()),
            RegistryError::InvalidPackageName => Some("invalid package name"@),
            RegistryError::InvalidArchiveFormat => Some("invalid archive format"@),
            RegistryError::InvalidUploadState => Some("invalid upload state"@),
            RegistryError::InvalidDownloadSource => Some("invalid download source"@),
            RegistryError::InvalidEntityType => Some("invalid embedding entity type"@),
            RegistryError::InvalidChecksum => Some("SHA-256 checksum must be 64 lowercase hexadecimal characters"@),
            RegistryError::NonPositiveUploadSize => Some("upload size must be positive"@),
            RegistryError::NegativeBytesServed => Some("bytes served cannot be negative"@),
            RegistryError::AdministratorRequired => Some("administrator role required"@),
            RegistryError::WriterRequired => Some("write-capable membership required"@),
            RegistryError::AuthenticationRequired => Some("authentication is required for a non-public package"@),
            RegistryError::MembershipRequired => Some("organization membership is required for this package"@),
            RegistryError::ProjectOutsideOrganization => Some("package project must belong to the same organization"@),
            RegistryError::NotPrivate => Some("only private packages can be converted to public"@),
            RegistryError::NegativePackageAge => Some("database returned a negative package age"@),
            RegistryError::LicenseRequired => Some("a SPDX expression or license name is required"@),
            RegistryError::InvalidInvitation => Some("invitation is invalid, expired, already used, or belongs to another email"@),
            RegistryError::AmbiguousInvitation => Some("ambiguous invitation token; contact registry support"@),
            RegistryError::VerifiedEmailRequired => Some("a verified email is required to accept an invitation"@),
            RegistryError::OrganizationNotFound => Some("organization not found"@),
            RegistryError::MembershipNotFound => Some("organization membership required"@),
            RegistryError::PackageNotFound => Some("package not found"@),
            RegistryError::UploadNotFound => Some("package upload not found"@),
            RegistryError::PackageDisappearedAfterCheck => Some("package disappeared after visibility check"@),
            RegistryError::PackageDisappearedAfterUpdate => Some("package disappeared after visibility update"@),
            RegistryError::MissingUuid => Some("Postgres returned no UUID"@),
            RegistryError::MissingUserId => Some("identity projection returned no user id"@),
            RegistryError::UnknownUser => Some("identity projection returned an unknown user"@),
            RegistryError::MissingEmbeddingId => Some("embedding upsert returned no id"@),
            RegistryError::MissingReadOnlySetting => Some("default_transaction_read_only returned no row"@),
            RegistryError::EmbeddingNotFinite => Some("embedding dimensions must all be finite"@),
            RegistryError::UnexpectedStep => Some("registry operation received an event out of order"@),
            RegistryError::EmbeddingDimensions(got) => Some(
                "embedding must contain 1536 dimensions, got "@ + decimal(got as int),
            ),
            RegistryError::TransitionDenied(denied) => denied.spec_message(),
            RegistryError::NotReadOnly(setting) => Some(
                "connection is not read-only: default_transaction_read_only = "@ + debug_quoted(
                    setting@,
                ) + " (expected \"on\"; web tiers must connect with DbRole::ReadOnly)"@,
            ),
        }
    }

    /// The text reported for the refusal; `None` only for the age refusal of
    /// the visibility policy, whose text holds a floating-point number.
    pub fn message(&self) -> (r: Option<String>)
        ensures
            match (r, self.spec_message()) {
                (Some(m), Some(t)) => m@ == t,
                (None, None) => true,
                _ => false,
            },
    {
        match self {
            RegistryError::InvalidField(field) => Some(
                String::from_str("invalid ").concat(field.label()),
            ),
            RegistryError::InvalidPackageName => Some(String::from_str("invalid package name")),
            RegistryError::InvalidArchiveFormat => Some(String::from_str("invalid archive format")),
            RegistryError::InvalidUploadState => Some(String::from_str("invalid upload state")),
            RegistryError::InvalidDownloadSource => Some(String::from_str("invalid download source")),
            RegistryError::InvalidEntityType => Some(String::from_str("invalid embedding entity type")),
            RegistryError::InvalidChecksum => Some(String::from_str("SHA-256 checksum must be 64 lowercase hexadecimal characters")),
            RegistryError::NonPositiveUploadSize => Some(String::from_str("upload size must be positive")),
            RegistryError::NegativeBytesServed => Some(String::from_str("bytes served cannot be negative")),
            RegistryError::AdministratorRequired => Some(String::from_str("administrator role required")),
            RegistryError::WriterRequired => Some(String::from_str("write-capable membership required")),
            RegistryError::AuthenticationRequired => Some(String::from_str("authentication is required for a non-public package")),
            RegistryError::MembershipRequired => Some(String::from_str("organization membership is required for this package")),
            RegistryError::ProjectOutsideOrganization => Some(String::from_str("package project must belong to the same organization")),
            RegistryError::NotPrivate => Some(String::from_str("only private packages can be converted to public")),
            RegistryError::NegativePackageAge => Some(String::from_str("database returned a negative package age")),
            RegistryError::LicenseRequired => Some(String::from_str("a SPDX expression or license name is required")),
            RegistryError::InvalidInvitation => Some(String::from_str("invitation is invalid, expired, already used, or belongs to another email")),
            RegistryError::AmbiguousInvitation => Some(String::from_str("ambiguous invitation token; contact registry support")),
            RegistryError::VerifiedEmailRequired => Some(String::from_str("a verified email is required to accept an invitation")),
            RegistryError::OrganizationNotFound => Some(String::from_str("organization not found")),
            RegistryError::MembershipNotFound => Some(String::from_str("organization membership required")),
            RegistryError::PackageNotFound => Some(String::from_str("package not found")),
            RegistryError::UploadNotFound => Some(String::from_str("package upload not found")),
            RegistryError::PackageDisappearedAfterCheck => Some(String::from_str("package disappeared after visibility check")),
            RegistryError::PackageDisappearedAfterUpdate => Some(String::from_str("package disappeared after visibility update")),
            RegistryError::MissingUuid => Some(String::from_str("Postgres returned no UUID")),
            RegistryError::MissingUserId => Some(String::from_str("identity projection returned no user id")),
            RegistryError::UnknownUser => Some(String::from_str("identity projection returned an unknown user")),
            RegistryError::MissingEmbeddingId => Some(String::from_str("embedding upsert returned no id")),
            RegistryError::MissingReadOnlySetting => Some(String::from_str("default_transaction_read_only returned no row")),
            RegistryError::EmbeddingNotFinite => Some(String::from_str("embedding dimensions must all be finite")),
            RegistryError::UnexpectedStep => Some(String::from_str("registry operation received an event out of order")),
            RegistryError::EmbeddingDimensions(got) => Some(
                String::from_str("embedding must contain 1536 dimensions, got ").concat(
                    decimal_string(*got as i128).as_str(),
                ),
            ),
            RegistryError::TransitionDenied(denied) => denied.message(),
            RegistryError::NotReadOnly(setting) => Some(
                String::from_str(
                    "connection is not read-only: default_transaction_read_only = ",
                ).concat(debug_string(setting.as_str()).as_str()).concat(
                    " (expected \"on\"; web tiers must connect with DbRole::ReadOnly)",
                ),
            ),
        }
    }
}

} // verus!
