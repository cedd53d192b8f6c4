//! Identities handed to the registry by Shared Auth, and invitation outcomes.

use vstd::prelude::*;
use sea_orm::prelude::Uuid;

verus! {

/// A principal verified by Shared Auth.
#[derive(Clone, Debug, PartialEq, Eq)]
pub struct SessionIdentity {
    pub subject: String,
    pub email: Option<String>,
    pub display_name: Option<String>,
    pub avatar_url: Option<String>,
}

/// What an accepted invitation grants membership of.
#[derive(Clone, Debug, PartialEq, Eq)]
pub enum InvitationTarget {
    Organization { org_id: Uuid, org_slug: String },
    Project { org_id: Uuid, org_slug: String, project_id: Uuid, project_slug: String },
}

/// The result of accepting an invitation.
#[derive(Clone, Debug, PartialEq, Eq)]
pub struct InvitationAcceptance {
    pub invitation_id: Uuid,
    pub user_id: Uuid,
    pub role: String,
    pub target: InvitationTarget,
}

/// A copy of an optional string.
pub fn clone_optional(value: &Option<String>) -> (r: Option<String>)
    ensures
        r == *value,
{
    match value {
        Some(s) => Some(s.clone()),
        None => None,
    }
}

} // verus!
