//! Verified principals as registry identities, and registry role checks.

use vstd::prelude::*;
use sea_orm::prelude::Uuid;
use crate::error::{Field, RegistryError};
use crate::models::{SessionIdentity, clone_optional};
use crate::text::str_eq;
use crate::validation::{is_nonempty_within, validate_nonempty};

verus! {

/// The issuer recorded for identities that come from the deployed Shared Auth.
pub const SHARED_AUTH_ISSUER: &'static str = "shared-auth";

/// Maximum length, in bytes, of an authentication issuer.
pub const MAX_ISSUER_BYTES: usize = 255usize;

/// Maximum length, in bytes, of an authentication subject.
pub const MAX_SUBJECT_BYTES: usize = 1024usize;

/// A verified principal, as the registry maps it to one registry user.
#[derive(Clone, Debug, PartialEq)]
pub struct FederatedIdentity {
    pub issuer: String,
    pub subject: String,
    pub supabase_user_id: Option<Uuid>,
    pub email: Option<String>,
    pub display_name: Option<String>,
    pub avatar_url: Option<String>,
}

impl FederatedIdentity {
    /// Preserve the deployed Shared Auth mapping: the issuer is
    /// `shared-auth`, there is no Supabase user id, and the subject and
    /// profile fields are those of the session.
    pub fn from_shared_auth(identity: &SessionIdentity) -> (r: Self)
        ensures
            r.issuer@ == SHARED_AUTH_ISSUER@,
            r.subject == identity.subject,
            r.supabase_user_id is None,
            r.email == identity.email,
            r.display_name == identity.display_name,
            r.avatar_url == identity.avatar_url,
    {
        FederatedIdentity {
            issuer: String::from_str(SHARED_AUTH_ISSUER),
            subject: identity.subject.clone(),
            supabase_user_id: None,
            email: clone_optional(&identity.email),
            display_name: clone_optional(&identity.display_name),
            avatar_url: clone_optional(&identity.avatar_url),
        }
    }
}

/// Whether `role` may administer an organization.
pub open spec fn is_admin_role(role: Seq<char>) -> bool {
    role == "owner"@ || role == "admin"@
}

/// Whether `role` may write to an organization.
pub open spec fn is_writer_role(role: Seq<char>) -> bool {
    role == "owner"@ || role == "admin"@ || role == "member"@
}

/// Accept the `owner` and `admin` roles only.
pub fn require_admin(role: &str) -> (r: Result<(), RegistryError>)
    ensures
        r == (if is_admin_role(role@) {
            Ok(())
        } else {
            Err(RegistryError::AdministratorRequired)
        }),
{
    if str_eq(role, "owner") || str_eq(role, "admin") {
        Ok(())
    } else {
        Err(RegistryError::AdministratorRequired)
    }
}

/// Accept the `owner`, `admin` and `member` roles only.
pub fn require_writer(role: &str) -> (r: Result<(), RegistryError>)
    ensures
        r == (if is_writer_role(role@) {
            Ok(())
        } else {
            Err(RegistryError::WriterRequired)
        }),
{
    if str_eq(role, "owner") || str_eq(role, "admin") || str_eq(role, "member") {
        Ok(())
    } else {
        Err(RegistryError::WriterRequired)
    }
}

/// Role checks are fail-closed and nested: every role that may administer an
/// organization may also write to it.
pub proof fn lemma_admin_roles_are_writer_roles(role: Seq<char>)
    requires
        is_admin_role(role),
    ensures
        is_writer_role(role),
{
}

/// The checks an identity passes before it is projected into the registry.
pub open spec fn spec_validate_identity(identity: FederatedIdentity) -> Result<(), RegistryError> {
    if !is_nonempty_within(identity.issuer@, MAX_ISSUER_BYTES as nat) {
        Err(RegistryError::InvalidField(Field::AuthenticationIssuer))
    } else if !is_nonempty_within(identity.subject@, MAX_SUBJECT_BYTES as nat) {
        Err(RegistryError::InvalidField(Field::AuthenticationSubject))
    } else {
        Ok(())
    }
}

/// Accept an identity whose issuer (at most 255 bytes) and subject (at most
/// 1024 bytes) are not blank.
pub fn validate_identity(identity: &FederatedIdentity) -> (r: Result<(), RegistryError>)
    ensures
        r == spec_validate_identity(*identity),
{
    validate_nonempty(Field::AuthenticationIssuer, identity.issuer.as_str(), MAX_ISSUER_BYTES)?;
    validate_nonempty(Field::AuthenticationSubject, identity.subject.as_str(), MAX_SUBJECT_BYTES)
}

} // verus!
