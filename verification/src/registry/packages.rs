//! Package creation, licenses, and the private-to-public transition.

use vstd::prelude::*;
use sea_orm::prelude::{Json, Uuid};
use crate::error::{Field, RegistryError};
use crate::models::clone_optional;
use crate::policy::{PublicTransitionDenied, spec_validate_private_to_public, validate_private_to_public};
use crate::text::{is_blank, str_eq, trim};
use crate::validation::{
    is_archive_format, is_nonempty_within, is_sha256_hex, is_valid_package_name,
    validate_archive_format, validate_nonempty, validate_package_name, validate_sha256,
};

verus! {

/// Maximum length, in bytes, of a version-control system name.
pub const MAX_VCS_BYTES: usize = 32usize;

/// Maximum length, in bytes, of a repository URL.
pub const MAX_REPO_URL_BYTES: usize = 2048usize;

/// The visibility every new package starts with: public visibility is only
/// reached through the private-to-public transition.
pub const INITIAL_VISIBILITY: &'static str = "private";

/// A package to create. It has no visibility field: new packages are private.
#[derive(Clone, Debug, PartialEq)]
pub struct CreatePackageInput {
    pub project_id: Option<Uuid>,
    pub name: String,
    pub description: Option<String>,
    pub vcs: String,
    pub repo_url: String,
    pub config: Json,
    pub default_archive_format: String,
}

/// A license to attach to a package.
#[derive(Clone, Debug, PartialEq, Eq)]
pub struct PackageLicenseInput {
    pub spdx_expression: Option<String>,
    pub license_name: Option<String>,
    pub license_url: Option<String>,
    pub license_text: Option<String>,
    pub checksum_sha256: Option<String>,
    pub is_primary: bool,
}

/// The checks a new package passes, in order.
pub open spec fn spec_validate_create(input: CreatePackageInput) -> Result<(), RegistryError> {
    if !is_valid_package_name(input.name@) {
        Err(RegistryError::InvalidPackageName)
    } else if !is_archive_format(input.default_archive_format@) {
        Err(RegistryError::InvalidArchiveFormat)
    } else if !is_nonempty_within(input.vcs@, MAX_VCS_BYTES as nat) {
        Err(RegistryError::InvalidField(Field::Vcs))
    } else if !is_nonempty_within(input.repo_url@, MAX_REPO_URL_BYTES as nat) {
        Err(RegistryError::InvalidField(Field::RepositoryUrl))
    } else {
        Ok(())
    }
}

impl CreatePackageInput {
    /// Accept a package with a valid name and default archive format, and a
    /// non-blank VCS name and repository URL within their limits.
    pub fn validate(&self) -> (r: Result<(), RegistryError>)
        ensures
            r == spec_validate_create(*self),
    {
        validate_package_name(self.name.as_str())?;
        validate_archive_format(self.default_archive_format.as_str())?;
        validate_nonempty(Field::Vcs, self.vcs.as_str(), MAX_VCS_BYTES)?;
        validate_nonempty(Field::RepositoryUrl, self.repo_url.as_str(), MAX_REPO_URL_BYTES)
    }
}

/// Accept a package's project only when it belongs to the package's
/// organization.
pub fn require_project_in_org(project_in_org: bool) -> (r: Result<(), RegistryError>)
    ensures
        r == (if project_in_org {
            Ok(())
        } else {
            Err(RegistryError::ProjectOutsideOrganization)
        }),
{
    if project_in_org {
        Ok(())
    } else {
        Err(RegistryError::ProjectOutsideOrganization)
    }
}

/// Whether an optional text holds something other than whitespace.
pub open spec fn has_text(value: Option<String>) -> bool {
    match value {
        Some(v) => !is_blank(v@),
        None => false,
    }
}

/// Whether an optional text holds something other than whitespace.
fn holds_text(value: &Option<String>) -> (r: bool)
    ensures
        r == has_text(*value),
{
    match value {
        Some(v) => !trim(v.as_str()).is_empty(),
        None => false,
    }
}

/// The checks a license passes, in order.
pub open spec fn spec_validate_license(input: PackageLicenseInput) -> Result<(), RegistryError> {
    if !has_text(input.spdx_expression) && !has_text(input.license_name) {
        Err(RegistryError::LicenseRequired)
    } else {
        match input.checksum_sha256 {
            Some(c) if !is_sha256_hex(c@) => Err(RegistryError::InvalidChecksum),
            _ => Ok(()),
        }
    }
}

impl PackageLicenseInput {
    /// Accept a license that names a SPDX expression or a license name, and
    /// whose checksum, if any, is a SHA-256 digest in lowercase hex.
    pub fn validate(&self) -> (r: Result<(), RegistryError>)
        ensures
            r == spec_validate_license(*self),
    {
        if !holds_text(&self.spdx_expression) && !holds_text(&self.license_name) {
            return Err(RegistryError::LicenseRequired);
        }
        match &self.checksum_sha256 {
            Some(c) => validate_sha256(Some(c.as_str())),
            None => validate_sha256(None),
        }
    }
}

/// The package row to insert (its id and timestamps are drawn by the caller;
/// it has never been public).
#[derive(Clone, Debug, PartialEq)]
pub struct NewPackage {
    pub org_id: Uuid,
    pub project_id: Option<Uuid>,
    pub name: String,
    pub description: Option<String>,
    pub vcs: String,
    pub repo_url: String,
    pub visibility: String,
    pub config: Json,
    pub created_by_user_id: Option<Uuid>,
    pub default_archive_format: String,
    pub download_count: i64,
    pub upload_count: i64,
    /// Whether the package has ever been public (whether `first_public_at`
    /// is set).
    pub has_been_public: bool,
    pub visibility_changed_by_user_id: Option<Uuid>,
}

/// Whether `r` is the row that creates `input` in organization `org_id` for
/// `actor_id`: the input's fields, private visibility, never public, no
/// downloads or uploads yet, and the actor as creator and as the one who set
/// the visibility.
pub open spec fn is_package_row(
    r: NewPackage,
    input: CreatePackageInput,
    org_id: Uuid,
    actor_id: Uuid,
) -> bool {
    &&& r.visibility@ == INITIAL_VISIBILITY@
    &&& !r.has_been_public
    &&& r.download_count == 0
    &&& r.upload_count == 0
    &&& r.created_by_user_id == Some(actor_id)
    &&& r.visibility_changed_by_user_id == Some(actor_id)
    &&& r.org_id == org_id
    &&& r.project_id == input.project_id
    &&& r.name == input.name
    &&& r.description == input.description
    &&& r.vcs == input.vcs
    &&& r.repo_url == input.repo_url
    &&& r.config == input.config
    &&& r.default_archive_format == input.default_archive_format
}

/// The row that creates `input` in organization `org_id` for `actor_id`.
pub fn plan_new_package(input: CreatePackageInput, org_id: Uuid, actor_id: Uuid) -> (r:
    NewPackage)
    ensures
        is_package_row(r, input, org_id, actor_id),
        r.visibility@ == "private"@,
        !r.has_been_public,
        r.download_count == 0,
        r.upload_count == 0,
        r.org_id == org_id,
        r.created_by_user_id == Some(actor_id),
        r.visibility_changed_by_user_id == Some(actor_id),
        r.project_id == input.project_id,

        r.name == input.name,

        r.description == input.description,

        r.vcs == input.vcs,

        r.repo_url == input.repo_url,

        r.config == input.config,

        r.default_archive_format == input.default_archive_format,
{
    NewPackage {
        org_id,
        project_id: input.project_id,
        name: input.name,
        description: input.description,
        vcs: input.vcs,
        repo_url: input.repo_url,
        visibility: String::from_str(INITIAL_VISIBILITY),
        config: input.config,
        created_by_user_id: Some(actor_id),
        default_archive_format: input.default_archive_format,
        download_count: 0,
        upload_count: 0,
        has_been_public: false,
        visibility_changed_by_user_id: Some(actor_id),
    }
}

/// The license row to insert (its id and timestamps are drawn by the caller),
/// and whether the package's current primary license must be demoted first.
#[derive(Clone, Debug, PartialEq, Eq)]
pub struct NewLicense {
    pub package_id: Uuid,
    pub spdx_expression: Option<String>,
    pub license_name: Option<String>,
    pub license_url: Option<String>,
    pub license_text: Option<String>,
    pub checksum_sha256: Option<String>,
    pub is_primary: bool,
    pub created_by_user_id: Option<Uuid>,
    /// A new primary license demotes the existing one: at most one is primary.
    pub clear_existing_primary: bool,
}

/// Whether `r` is the row that attaches `input` to package `package_id` for
/// `actor_id`; the existing primary license is demoted exactly when the new
/// one is primary.
pub open spec fn is_license_row(
    r: NewLicense,
    input: PackageLicenseInput,
    package_id: Uuid,
    actor_id: Uuid,
) -> bool {
    &&& r.package_id == package_id
    &&& r.created_by_user_id == Some(actor_id)
    &&& r.clear_existing_primary == input.is_primary
    &&& r.is_primary == input.is_primary
    &&& r.spdx_expression == input.spdx_expression
    &&& r.license_name == input.license_name
    &&& r.license_url == input.license_url
    &&& r.license_text == input.license_text
    &&& r.checksum_sha256 == input.checksum_sha256
}

/// The row that attaches `input` to package `package_id` for `actor_id`.
pub fn plan_new_license(input: PackageLicenseInput, package_id: Uuid, actor_id: Uuid) -> (r:
    NewLicense)
    ensures
        is_license_row(r, input, package_id, actor_id),
        r.package_id == package_id,
        r.created_by_user_id == Some(actor_id),
        r.clear_existing_primary == input.is_primary,
        r.spdx_expression == input.spdx_expression,

        r.license_name == input.license_name,

        r.license_url == input.license_url,

        r.license_text == input.license_text,

        r.checksum_sha256 == input.checksum_sha256,

        r.is_primary == input.is_primary,
{
    NewLicense {
        package_id,
        spdx_expression: input.spdx_expression,
        license_name: input.license_name,
        license_url: input.license_url,
        license_text: input.license_text,
        checksum_sha256: input.checksum_sha256,
        is_primary: input.is_primary,
        created_by_user_id: Some(actor_id),
        clear_existing_primary: input.is_primary,
    }
}

/// What making a package public does.
#[derive(Clone, Copy, Debug, PartialEq, Eq, Structural)]
pub enum VisibilityTransition {
    /// The package is already public; nothing changes.
    AlreadyPublic,
    /// The private package becomes public.
    Publish,
}

/// The decision for a package with `visibility`, `completed_downloads`
/// completed downloads and an age of `age_micros` microseconds, as read under
/// the package row lock.
pub open spec fn spec_plan_public_transition(
    visibility: Seq<char>,
    completed_downloads: i64,
    age_micros: i64,
) -> Result<VisibilityTransition, RegistryError> {
    if visibility == "public"@ {
        Ok(VisibilityTransition::AlreadyPublic)
    } else if visibility != "private"@ {
        Err(RegistryError::NotPrivate)
    } else if age_micros < 0 {
        Err(RegistryError::NegativePackageAge)
    } else {
        match spec_validate_private_to_public(
            (age_micros as u128 * 1000) as u128,
            completed_downloads,
        ) {
            Ok(()) => Ok(VisibilityTransition::Publish),
            Err(denied) => Err(RegistryError::TransitionDenied(denied)),
        }
    }
}

/// Decide the one-way private-to-public transition: a public package stays as
/// it is, only a private package may become public, and only within the
/// policy's age and download window.
pub fn plan_public_transition(
    visibility: &str,
    completed_downloads: i64,
    age_micros: i64,
) -> (r: Result<VisibilityTransition, RegistryError>)
    ensures
        r == spec_plan_public_transition(visibility@, completed_downloads, age_micros),
        r matches Ok(VisibilityTransition::Publish) ==> visibility@ == INITIAL_VISIBILITY@,
{
    if str_eq(visibility, "public") {
        return Ok(VisibilityTransition::AlreadyPublic);
    }
    if !str_eq(visibility, "private") {
        return Err(RegistryError::NotPrivate);
    }
    if age_micros < 0 {
        return Err(RegistryError::NegativePackageAge);
    }
    let micros: u64 = age_micros as u64;
    let age_nanos: u128 = micros as u128 * 1000;
    match validate_private_to_public(age_nanos, completed_downloads) {
        Ok(()) => Ok(VisibilityTransition::Publish),
        Err(denied) => Err(RegistryError::TransitionDenied(denied)),
    }
}

/// A private package with a non-negative age is published exactly when the
/// private-to-public policy allows its age (in nanoseconds) and download count;
/// a package that is neither private nor public is never published.
pub proof fn lemma_publish_iff_policy_allows(
    visibility: Seq<char>,
    completed_downloads: i64,
    age_micros: i64,
)
    ensures
        visibility == "private"@ && age_micros >= 0 ==> ((spec_plan_public_transition(
            visibility,
            completed_downloads,
            age_micros,
        ) == Ok::<VisibilityTransition, RegistryError>(VisibilityTransition::Publish))
            <==> spec_validate_private_to_public(
            (age_micros * 1000) as u128,
            completed_downloads,
        ) is Ok),
        visibility != "private"@ && visibility != "public"@ ==> spec_plan_public_transition(
            visibility,
            completed_downloads,
            age_micros,
        ) == Err::<VisibilityTransition, RegistryError>(RegistryError::NotPrivate),
{
    reveal_strlit("private");
    reveal_strlit("public");
    if visibility == "private"@ {
        assert(visibility != "public"@) by {
            assert(visibility[1] != "public"@[1]);
        }
    }
}

} // verus!
