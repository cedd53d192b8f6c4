//! Step functions of the registry's write operations.
//!
//! Each operation is a state machine: given its state and the answer to its
//! last action (an event), a step returns the next state and the next action
//! for the data plane to perform. The data plane starts an operation in its
//! `Received` state with the `Start` event, performs each action, and hands
//! back its answer, until the action is a write or a refusal.
//!
//! The laws below state the order the steps keep: every validation of the
//! input comes before the first read or write, every role check before the
//! lookups and writes it guards, and a write only follows all of them.

use vstd::prelude::*;
use sea_orm::prelude::Uuid;
use crate::error::RegistryError;
use crate::invitations::{
    InvitationKind, emails_match, is_token_shape, normalized_identity_email, require_matching_email,
    require_single_use, select_invitation, spec_normalized_identity_email, optional_view,
    validate_token,
};
use crate::models::{InvitationAcceptance, InvitationTarget, SessionIdentity};
use crate::identity::{is_admin_role, is_writer_role, require_admin, require_writer};
use crate::policy::PublicTransitionDenied;
use crate::registry::artifacts::{
    NewDownload, NewUpload, PackageDownloadInput, PackageUploadInput, download_access,
    is_download_row, is_upload_row, plan_new_download, plan_new_upload, spec_download_access,
    spec_validate_download, spec_validate_upload,
};
use crate::registry::packages::{
    CreatePackageInput, NewLicense, NewPackage, PackageLicenseInput, VisibilityTransition,
    is_license_row, is_package_row, plan_new_license, plan_new_package, plan_public_transition,
    spec_plan_public_transition, spec_validate_create, spec_validate_license,
};

verus! {

// ---------------------------------------------------------------- uploads

/// Where an upload registration stands.
#[derive(Debug)]
pub enum UploadState {
    /// The request has arrived.
    Received(PackageUploadInput),
    /// The input is valid; the caller's membership is being resolved.
    Validated(PackageUploadInput),
    /// The caller may write; the package is being looked up.
    Authorized { input: PackageUploadInput, actor_id: Uuid, role: String },
    Finished,
}

/// An answer to an upload registration's last action.
#[derive(Debug)]
pub enum UploadEvent {
    Start,
    /// The caller's user id, the organization's id, and the caller's role in it.
    MemberResolved { actor_id: Uuid, org_id: Uuid, role: String },
    /// The id of the named package in the organization, if there is one.
    PackageLookedUp(Option<Uuid>),
}

/// What an upload registration asks the data plane to do next.
#[derive(Debug, PartialEq)]
pub enum UploadAction {
    /// Project the caller into the registry and read its organization role.
    ResolveMember,
    /// Look up the named package in organization `org_id`.
    FindPackage { org_id: Uuid },
    /// Insert the upload row; the operation is done.
    Insert(NewUpload),
    /// Refuse the request; the operation is done.
    Refuse(RegistryError),
}

/// What an upload registration's state guarantees.
pub open spec fn upload_state_ok(state: UploadState) -> bool {
    match state {
        UploadState::Validated(input) => spec_validate_upload(input) is Ok,
        UploadState::Authorized { input, role, .. } => spec_validate_upload(input) is Ok
            && is_writer_role(role@),
        _ => true,
    }
}

/// One step of an upload registration: validate, then resolve the caller,
/// then require a writer, then find the package, then insert.
pub open spec fn upload_transition(
    state: UploadState,
    event: UploadEvent,
    next: UploadState,
    action: UploadAction,
) -> bool {
    match (state, event) {
        (UploadState::Received(input), UploadEvent::Start) => match spec_validate_upload(input) {
            Ok(_) => next == UploadState::Validated(input) && action == UploadAction::ResolveMember,
            Err(e) => next == UploadState::Finished && action == UploadAction::Refuse(e),
        },
        (
            UploadState::Validated(input),
            UploadEvent::MemberResolved { actor_id, org_id, role },
        ) => if is_writer_role(role@) {
            next == (UploadState::Authorized { input, actor_id, role }) && action
                == (UploadAction::FindPackage { org_id })
        } else {
            next == UploadState::Finished && action == UploadAction::Refuse(
                RegistryError::WriterRequired,
            )
        },
        (UploadState::Authorized { input, actor_id, .. }, UploadEvent::PackageLookedUp(found)) => {
            &&& next == UploadState::Finished
            &&& match found {
                Some(package_id) => action matches UploadAction::Insert(row) && is_upload_row(
                    row,
                    input,
                    package_id,
                    actor_id,
                ),
                None => action == UploadAction::Refuse(RegistryError::PackageNotFound),
            }
        },
        _ => next == UploadState::Finished && action == UploadAction::Refuse(
            RegistryError::UnexpectedStep,
        ),
    }
}

/// Advance an upload registration by one step.
pub fn upload_step(state: UploadState, event: UploadEvent) -> (r: (UploadState, UploadAction))
    ensures
        upload_transition(state, event, r.0, r.1),
        upload_state_ok(state) ==> upload_state_ok(r.0),
        r.1 matches UploadAction::Insert(row) ==> (state matches UploadState::Authorized {
            input,
            actor_id,
            ..
        } && (event matches UploadEvent::PackageLookedUp(Some(package_id)) && row.package_id
            == package_id) && row.uploader_user_id == Some(actor_id) && row.stamps.published == (input.state@ == "published"@) && row.stamps.verified == (input.state@
            == "verified"@ || input.state@ == "published"@) && row.stamps.uploaded == (input.state@ != "pending"@) && row.source_upload_id == input.source_upload_id &&
            row.version == input.version &&
            row.archive_format == input.archive_format &&
            row.state == input.state &&
            row.storage_backend == input.storage_backend &&
            row.storage_bucket == input.storage_bucket &&
            row.storage_key == input.storage_key &&
            row.original_filename == input.original_filename &&
            row.size_bytes == input.size_bytes &&
            row.sha256 == input.sha256 &&
            row.vcs_tag == input.vcs_tag &&
            row.vcs_commit == input.vcs_commit &&
            row.metadata == input.metadata),
{
    match (state, event) {
        (UploadState::Received(input), UploadEvent::Start) => match input.validate() {
            Ok(()) => (UploadState::Validated(input), UploadAction::ResolveMember),
            Err(e) => (UploadState::Finished, UploadAction::Refuse(e)),
        },
        (
            UploadState::Validated(input),
            UploadEvent::MemberResolved { actor_id, org_id, role },
        ) => match require_writer(role.as_str()) {
            Ok(()) => (
                UploadState::Authorized { input, actor_id, role },
                UploadAction::FindPackage { org_id },
            ),
            Err(e) => (UploadState::Finished, UploadAction::Refuse(e)),
        },
        (UploadState::Authorized { input, actor_id, .. }, UploadEvent::PackageLookedUp(found)) => {
            match found {
                Some(package_id) => (
                    UploadState::Finished,
                    UploadAction::Insert(plan_new_upload(input, package_id, actor_id)),
                ),
                None => (
                    UploadState::Finished,
                    UploadAction::Refuse(RegistryError::PackageNotFound),
                ),
            }
        },
        _ => (UploadState::Finished, UploadAction::Refuse(RegistryError::UnexpectedStep)),
    }
}

/// An upload registration reads nothing before its input is valid, and inserts
/// a row only for a valid input, a caller with a writer role, and a package of
/// the caller's organization.
pub proof fn lemma_upload_checks_come_first(
    state: UploadState,
    event: UploadEvent,
    next: UploadState,
    action: UploadAction,
)
    requires
        upload_state_ok(state),
        upload_transition(state, event, next, action),
    ensures
        state matches UploadState::Received(input) ==> (action == UploadAction::ResolveMember
            ==> spec_validate_upload(input) is Ok),
        state matches UploadState::Received(_) ==> (action is ResolveMember || action is Refuse),
        action matches UploadAction::Insert(row) ==> (state matches UploadState::Authorized {
            input,
            actor_id,
            role,
        } && spec_validate_upload(input) is Ok && is_writer_role(role@) && row.uploader_user_id
            == Some(actor_id)),
{
}

// ---------------------------------------------------------------- packages

/// Where a package creation stands.
#[derive(Debug)]
pub enum CreateState {
    Received(CreatePackageInput),
    /// The input is valid; the caller's membership is being resolved.
    Validated(CreatePackageInput),
    /// The caller may write; the package's project is being checked.
    CheckingProject { input: CreatePackageInput, actor_id: Uuid, org_id: Uuid, role: String },
    Finished,
}

/// An answer to a package creation's last action.
#[derive(Debug)]
pub enum CreateEvent {
    Start,
    MemberResolved { actor_id: Uuid, org_id: Uuid, role: String },
    /// Whether the package's project belongs to the organization.
    ProjectChecked { in_org: bool },
}

/// What a package creation asks the data plane to do next.
#[derive(Debug, PartialEq)]
pub enum CreateAction {
    ResolveMember,
    /// Check whether project `project_id` belongs to organization `org_id`.
    CheckProject { project_id: Uuid, org_id: Uuid },
    Insert(NewPackage),
    Refuse(RegistryError),
}

/// What a package creation's state guarantees.
pub open spec fn create_state_ok(state: CreateState) -> bool {
    match state {
        CreateState::Validated(input) => spec_validate_create(input) is Ok,
        CreateState::CheckingProject { input, role, .. } => spec_validate_create(input) is Ok
            && is_writer_role(role@) && input.project_id is Some,
        _ => true,
    }
}

/// One step of a package creation: validate, then resolve the caller, then
/// require a writer, then (for a package of a project) check the project, then
/// insert a private package.
pub open spec fn create_transition(
    state: CreateState,
    event: CreateEvent,
    next: CreateState,
    action: CreateAction,
) -> bool {
    match (state, event) {
        (CreateState::Received(input), CreateEvent::Start) => match spec_validate_create(input) {
            Ok(_) => next == CreateState::Validated(input) && action == CreateAction::ResolveMember,
            Err(e) => next == CreateState::Finished && action == CreateAction::Refuse(e),
        },
        (
            CreateState::Validated(input),
            CreateEvent::MemberResolved { actor_id, org_id, role },
        ) => if !is_writer_role(role@) {
            next == CreateState::Finished && action == CreateAction::Refuse(
                RegistryError::WriterRequired,
            )
        } else {
            match input.project_id {
                Some(project_id) => next == (CreateState::CheckingProject {
                    input,
                    actor_id,
                    org_id,
                    role,
                }) && action == (CreateAction::CheckProject { project_id, org_id }),
                None => next == CreateState::Finished && (action matches CreateAction::Insert(row)
                    && is_package_row(row, input, org_id, actor_id)),
            }
        },
        (
            CreateState::CheckingProject { input, actor_id, org_id, .. },
            CreateEvent::ProjectChecked { in_org },
        ) => {
            &&& next == CreateState::Finished
            &&& if in_org {
                action matches CreateAction::Insert(row) && is_package_row(
                    row,
                    input,
                    org_id,
                    actor_id,
                )
            } else {
                action == CreateAction::Refuse(RegistryError::ProjectOutsideOrganization)
            }
        },
        _ => next == CreateState::Finished && action == CreateAction::Refuse(
            RegistryError::UnexpectedStep,
        ),
    }
}

/// Advance a package creation by one step.
pub fn create_step(state: CreateState, event: CreateEvent) -> (r: (CreateState, CreateAction))
    ensures
        create_transition(state, event, r.0, r.1),
        create_state_ok(state) ==> create_state_ok(r.0),
        r.1 matches CreateAction::Insert(row) ==> ((state matches CreateState::Validated(input) && (
            event matches CreateEvent::MemberResolved { actor_id, org_id, .. } && row.org_id
            == org_id && row.created_by_user_id == Some(actor_id)
            && row.visibility_changed_by_user_id == Some(actor_id) && row.project_id == input.project_id &&
            row.name == input.name &&
            row.description == input.description &&
            row.vcs == input.vcs &&
            row.repo_url == input.repo_url &&
            row.config == input.config &&
            row.default_archive_format == input.default_archive_format)) || (state matches CreateState::CheckingProject { input, actor_id, org_id, .. } && row.org_id
            == org_id && row.created_by_user_id == Some(actor_id)
            && row.visibility_changed_by_user_id == Some(actor_id) && row.project_id == input.project_id &&
            row.name == input.name &&
            row.description == input.description &&
            row.vcs == input.vcs &&
            row.repo_url == input.repo_url &&
            row.config == input.config &&
            row.default_archive_format == input.default_archive_format)),
        r.1 matches CreateAction::Insert(row) ==> (row.visibility@ == "private"@ && !row.has_been_public
            && row.download_count == 0 && row.upload_count == 0),
{
    match (state, event) {
        (CreateState::Received(input), CreateEvent::Start) => match input.validate() {
            Ok(()) => (CreateState::Validated(input), CreateAction::ResolveMember),
            Err(e) => (CreateState::Finished, CreateAction::Refuse(e)),
        },
        (
            CreateState::Validated(input),
            CreateEvent::MemberResolved { actor_id, org_id, role },
        ) => match require_writer(role.as_str()) {
            Err(e) => (CreateState::Finished, CreateAction::Refuse(e)),
            Ok(()) => match input.project_id {
                Some(project_id) => (
                    CreateState::CheckingProject { input, actor_id, org_id, role },
                    CreateAction::CheckProject { project_id, org_id },
                ),
                None => (
                    CreateState::Finished,
                    CreateAction::Insert(plan_new_package(input, org_id, actor_id)),
                ),
            },
        },
        (
            CreateState::CheckingProject { input, actor_id, org_id, .. },
            CreateEvent::ProjectChecked { in_org },
        ) => if in_org {
            (CreateState::Finished, CreateAction::Insert(plan_new_package(input, org_id, actor_id)))
        } else {
            (
                CreateState::Finished,
                CreateAction::Refuse(RegistryError::ProjectOutsideOrganization),
            )
        },
        _ => (CreateState::Finished, CreateAction::Refuse(RegistryError::UnexpectedStep)),
    }
}

/// A package creation reads nothing before its input is valid, and inserts a
/// package only for a valid input and a caller with a writer role; the package
/// is private, never public, and has no downloads or uploads.
pub proof fn lemma_create_checks_come_first(
    state: CreateState,
    event: CreateEvent,
    next: CreateState,
    action: CreateAction,
)
    requires
        create_state_ok(state),
        create_transition(state, event, next, action),
    ensures
        state matches CreateState::Received(input) ==> (action == CreateAction::ResolveMember
            ==> spec_validate_create(input) is Ok),
        state matches CreateState::Received(_) ==> (action is ResolveMember || action is Refuse),
        action matches CreateAction::Insert(row) ==> ({
            &&& (state matches CreateState::Validated(input) && spec_validate_create(input) is Ok
                && input.project_id is None) || (state matches CreateState::CheckingProject {
                input,
                role,
                ..
            } && spec_validate_create(input) is Ok && is_writer_role(role@))
            &&& event matches CreateEvent::MemberResolved { role, .. } ==> is_writer_role(role@)
            &&& !row.has_been_public && row.download_count == 0 && row.upload_count == 0
        }),
{
}

// ---------------------------------------------------------------- licenses

/// Where attaching a license stands.
#[derive(Debug)]
pub enum LicenseState {
    Received(PackageLicenseInput),
    Validated(PackageLicenseInput),
    Authorized { input: PackageLicenseInput, actor_id: Uuid, role: String },
    Finished,
}

/// An answer to a license attachment's last action.
#[derive(Debug)]
pub enum LicenseEvent {
    Start,
    MemberResolved { actor_id: Uuid, org_id: Uuid, role: String },
    PackageLookedUp(Option<Uuid>),
}

/// What attaching a license asks the data plane to do next.
#[derive(Debug, PartialEq)]
pub enum LicenseAction {
    ResolveMember,
    FindPackage { org_id: Uuid },
    /// Insert the license row (demoting the current primary one first when
    /// the row says so); the operation is done.
    Insert(NewLicense),
    Refuse(RegistryError),
}

/// What a license attachment's state guarantees.
pub open spec fn license_state_ok(state: LicenseState) -> bool {
    match state {
        LicenseState::Validated(input) => spec_validate_license(input) is Ok,
        LicenseState::Authorized { input, role, .. } => spec_validate_license(input) is Ok
            && is_writer_role(role@),
        _ => true,
    }
}

/// One step of attaching a license: validate, then resolve the caller, then
/// require a writer, then find the package, then insert.
pub open spec fn license_transition(
    state: LicenseState,
    event: LicenseEvent,
    next: LicenseState,
    action: LicenseAction,
) -> bool {
    match (state, event) {
        (LicenseState::Received(input), LicenseEvent::Start) => match spec_validate_license(
            input,
        ) {
            Ok(_) => next == LicenseState::Validated(input) && action
                == LicenseAction::ResolveMember,
            Err(e) => next == LicenseState::Finished && action == LicenseAction::Refuse(e),
        },
        (
            LicenseState::Validated(input),
            LicenseEvent::MemberResolved { actor_id, org_id, role },
        ) => if is_writer_role(role@) {
            next == (LicenseState::Authorized { input, actor_id, role }) && action
                == (LicenseAction::FindPackage { org_id })
        } else {
            next == LicenseState::Finished && action == LicenseAction::Refuse(
                RegistryError::WriterRequired,
            )
        },
        (LicenseState::Authorized { input, actor_id, .. }, LicenseEvent::PackageLookedUp(found)) => {
            &&& next == LicenseState::Finished
            &&& match found {
                Some(package_id) => action matches LicenseAction::Insert(row) && is_license_row(
                    row,
                    input,
                    package_id,
                    actor_id,
                ),
                None => action == LicenseAction::Refuse(RegistryError::PackageNotFound),
            }
        },
        _ => next == LicenseState::Finished && action == LicenseAction::Refuse(
            RegistryError::UnexpectedStep,
        ),
    }
}

/// Advance a license attachment by one step.
pub fn license_step(state: LicenseState, event: LicenseEvent) -> (r: (LicenseState, LicenseAction))
    ensures
        license_transition(state, event, r.0, r.1),
        license_state_ok(state) ==> license_state_ok(r.0),
        r.1 matches LicenseAction::Insert(row) ==> (state matches LicenseState::Authorized {
            input,
            actor_id,
            ..
        } && (event matches LicenseEvent::PackageLookedUp(Some(package_id)) && row.package_id
            == package_id) && row.created_by_user_id == Some(actor_id)
            && row.clear_existing_primary == input.is_primary && row.spdx_expression == input.spdx_expression &&
            row.license_name == input.license_name &&
            row.license_url == input.license_url &&
            row.license_text == input.license_text &&
            row.checksum_sha256 == input.checksum_sha256 &&
            row.is_primary == input.is_primary),
{
    match (state, event) {
        (LicenseState::Received(input), LicenseEvent::Start) => match input.validate() {
            Ok(()) => (LicenseState::Validated(input), LicenseAction::ResolveMember),
            Err(e) => (LicenseState::Finished, LicenseAction::Refuse(e)),
        },
        (
            LicenseState::Validated(input),
            LicenseEvent::MemberResolved { actor_id, org_id, role },
        ) => match require_writer(role.as_str()) {
            Ok(()) => (
                LicenseState::Authorized { input, actor_id, role },
                LicenseAction::FindPackage { org_id },
            ),
            Err(e) => (LicenseState::Finished, LicenseAction::Refuse(e)),
        },
        (LicenseState::Authorized { input, actor_id, .. }, LicenseEvent::PackageLookedUp(found)) => {
            match found {
                Some(package_id) => (
                    LicenseState::Finished,
                    LicenseAction::Insert(plan_new_license(input, package_id, actor_id)),
                ),
                None => (
                    LicenseState::Finished,
                    LicenseAction::Refuse(RegistryError::PackageNotFound),
                ),
            }
        },
        _ => (LicenseState::Finished, LicenseAction::Refuse(RegistryError::UnexpectedStep)),
    }
}

/// Attaching a license reads nothing before its input is valid, and inserts
/// only for a valid input and a caller with a writer role.
pub proof fn lemma_license_checks_come_first(
    state: LicenseState,
    event: LicenseEvent,
    next: LicenseState,
    action: LicenseAction,
)
    requires
        license_state_ok(state),
        license_transition(state, event, next, action),
    ensures
        state matches LicenseState::Received(input) ==> (action == LicenseAction::ResolveMember
            ==> spec_validate_license(input) is Ok),
        state matches LicenseState::Received(_) ==> (action is ResolveMember || action is Refuse),
        action matches LicenseAction::Insert(row) ==> (state matches LicenseState::Authorized {
            input,
            role,
            ..
        } && spec_validate_license(input) is Ok && is_writer_role(role@)
            && row.clear_existing_primary == input.is_primary),
{
}

// ---------------------------------------------------------------- visibility

/// The facts read from a package row under its lock.
#[derive(Debug, PartialEq, Eq)]
pub struct LockedPackage {
    pub package_id: Uuid,
    pub visibility: String,
    pub completed_downloads: i64,
    pub age_micros: i64,
}

/// Where making a package public stands.
#[derive(Debug)]
pub enum PublishState {
    Received,
    /// The caller's membership is being resolved.
    AwaitingMember,
    /// The caller administers the organization; the package row is being locked.
    Locking { actor_id: Uuid, role: String },
    Finished,
}

/// An answer to the last action of making a package public.
#[derive(Debug)]
pub enum PublishEvent {
    Start,
    MemberResolved { actor_id: Uuid, org_id: Uuid, role: String },
    /// The package row read under its lock, if there is one.
    RowLocked(Option<LockedPackage>),
}

/// What making a package public asks the data plane to do next.
#[derive(Debug, PartialEq, Eq)]
pub enum PublishAction {
    ResolveMember,
    /// Lock the named package row of organization `org_id` and read it.
    LockPackage { org_id: Uuid },
    /// The package is already public: release the lock and return it as it is.
    ReturnUnchanged { package_id: Uuid },
    /// Make the package public, recording `actor_id`, and return it.
    Publish { package_id: Uuid, actor_id: Uuid },
    Refuse(RegistryError),
}

/// What the state of making a package public guarantees.
pub open spec fn publish_state_ok(state: PublishState) -> bool {
    match state {
        PublishState::Locking { role, .. } => is_admin_role(role@),
        _ => true,
    }
}

/// One step of making a package public: resolve the caller, require an
/// administrator, lock and read the row, then decide by the visibility policy.
pub open spec fn publish_transition(
    state: PublishState,
    event: PublishEvent,
    next: PublishState,
    action: PublishAction,
) -> bool {
    match (state, event) {
        (PublishState::Received, PublishEvent::Start) => next == PublishState::AwaitingMember
            && action == PublishAction::ResolveMember,
        (PublishState::AwaitingMember, PublishEvent::MemberResolved { actor_id, org_id, role }) => {
            if is_admin_role(role@) {
                next == (PublishState::Locking { actor_id, role }) && action
                    == (PublishAction::LockPackage { org_id })
            } else {
                next == PublishState::Finished && action == PublishAction::Refuse(
                    RegistryError::AdministratorRequired,
                )
            }
        },
        (PublishState::Locking { actor_id, .. }, PublishEvent::RowLocked(found)) => {
            &&& next == PublishState::Finished
            &&& match found {
                None => action == PublishAction::Refuse(RegistryError::PackageNotFound),
                Some(row) => match spec_plan_public_transition(
                    row.visibility@,
                    row.completed_downloads,
                    row.age_micros,
                ) {
                    Ok(VisibilityTransition::AlreadyPublic) => action
                        == (PublishAction::ReturnUnchanged { package_id: row.package_id }),
                    Ok(VisibilityTransition::Publish) => action == (PublishAction::Publish {
                        package_id: row.package_id,
                        actor_id,
                    }),
                    Err(e) => action == PublishAction::Refuse(e),
                },
            }
        },
        _ => next == PublishState::Finished && action == PublishAction::Refuse(
            RegistryError::UnexpectedStep,
        ),
    }
}

/// Advance making a package public by one step.
pub fn publish_step(state: PublishState, event: PublishEvent) -> (r: (PublishState, PublishAction))
    ensures
        publish_transition(state, event, r.0, r.1),
        publish_state_ok(state) ==> publish_state_ok(r.0),
{
    match (state, event) {
        (PublishState::Received, PublishEvent::Start) => (
            PublishState::AwaitingMember,
            PublishAction::ResolveMember,
        ),
        (PublishState::AwaitingMember, PublishEvent::MemberResolved { actor_id, org_id, role }) => {
            match require_admin(role.as_str()) {
                Ok(()) => (
                    PublishState::Locking { actor_id, role },
                    PublishAction::LockPackage { org_id },
                ),
                Err(e) => (PublishState::Finished, PublishAction::Refuse(e)),
            }
        },
        (PublishState::Locking { actor_id, .. }, PublishEvent::RowLocked(found)) => match found {
            None => (PublishState::Finished, PublishAction::Refuse(RegistryError::PackageNotFound)),
            Some(row) => match plan_public_transition(
                row.visibility.as_str(),
                row.completed_downloads,
                row.age_micros,
            ) {
                Ok(VisibilityTransition::AlreadyPublic) => (
                    PublishState::Finished,
                    PublishAction::ReturnUnchanged { package_id: row.package_id },
                ),
                Ok(VisibilityTransition::Publish) => (
                    PublishState::Finished,
                    PublishAction::Publish { package_id: row.package_id, actor_id },
                ),
                Err(e) => (PublishState::Finished, PublishAction::Refuse(e)),
            },
        },
        _ => (PublishState::Finished, PublishAction::Refuse(RegistryError::UnexpectedStep)),
    }
}

/// A package is made public only by an administrator, only after its row is
/// locked and read, and only when it is private and inside the policy's window.
pub proof fn lemma_publish_checks_come_first(
    state: PublishState,
    event: PublishEvent,
    next: PublishState,
    action: PublishAction,
)
    requires
        publish_state_ok(state),
        publish_transition(state, event, next, action),
    ensures
        action matches PublishAction::LockPackage { .. } ==> event matches
            PublishEvent::MemberResolved { role, .. } && is_admin_role(role@),
        action matches PublishAction::Publish { .. } ==> ({
            &&& state matches PublishState::Locking { role, .. } && is_admin_role(role@)
            &&& event matches PublishEvent::RowLocked(Some(row)) && spec_plan_public_transition(
                row.visibility@,
                row.completed_downloads,
                row.age_micros,
            ) == Ok::<VisibilityTransition, RegistryError>(VisibilityTransition::Publish)
        }),
{
}

// ---------------------------------------------------------------- downloads

/// The facts read about the upload a download names.
#[derive(Debug, PartialEq, Eq)]
pub struct UploadFacts {
    pub upload_id: Uuid,
    pub package_id: Uuid,
    pub archive_format: String,
}

/// The facts read about the package of a downloaded upload.
#[derive(Debug, PartialEq, Eq)]
pub struct PackageFacts {
    pub package_id: Uuid,
    pub org_id: Uuid,
    pub visibility: String,
}

/// Where recording a download stands.
#[derive(Debug)]
pub enum DownloadState {
    /// The request has arrived; `authenticated` says whether it names a caller.
    Received { input: PackageDownloadInput, authenticated: bool },
    AwaitingUpload { input: PackageDownloadInput, authenticated: bool },
    AwaitingPackage { input: PackageDownloadInput, authenticated: bool, upload: UploadFacts },
    AwaitingUser { input: PackageDownloadInput, upload: UploadFacts, package: PackageFacts },
    /// The caller must be a member of the package's organization.
    AwaitingMembership {
        input: PackageDownloadInput,
        upload: UploadFacts,
        package: PackageFacts,
        user_id: Uuid,
    },
    Finished,
}

/// An answer to a download recording's last action.
#[derive(Debug)]
pub enum DownloadEvent {
    Start,
    UploadLookedUp(Option<UploadFacts>),
    PackageLookedUp(Option<PackageFacts>),
    /// The caller's registry user id.
    UserResolved { user_id: Uuid },
    MembershipChecked { is_member: bool },
}

/// What recording a download asks the data plane to do next.
#[derive(Debug, PartialEq, Eq)]
pub enum DownloadAction {
    FindUpload { upload_id: Uuid },
    FindPackage { package_id: Uuid },
    /// Project the caller into the registry.
    ResolveUser,
    /// Check whether `user_id` is a member of organization `org_id`.
    CheckMembership { org_id: Uuid, user_id: Uuid },
    Insert(NewDownload),
    Refuse(RegistryError),
}

/// The input a download state carries, if any.
pub open spec fn download_input(state: DownloadState) -> Option<PackageDownloadInput> {
    match state {
        DownloadState::Received { input, .. } => Some(input),
        DownloadState::AwaitingUpload { input, .. } => Some(input),
        DownloadState::AwaitingPackage { input, .. } => Some(input),
        DownloadState::AwaitingUser { input, .. } => Some(input),
        DownloadState::AwaitingMembership { input, .. } => Some(input),
        DownloadState::Finished => None,
    }
}

/// What a download recording's state guarantees: past its arrival, the input
/// is valid, and a membership check is pending only for a non-public package.
pub open spec fn download_state_ok(state: DownloadState) -> bool {
    match state {
        DownloadState::Received { .. } => true,
        DownloadState::Finished => true,
        DownloadState::AwaitingMembership { input, package, .. } => spec_validate_download(input)
            is Ok && package.visibility@ != "public"@,
        _ => download_input(state) matches Some(input) && spec_validate_download(input) is Ok,
    }
}

/// The decision once the package (and the caller, if any) are known: a public
/// package is recorded at once, a non-public one needs a member.
pub open spec fn download_decision(
    input: PackageDownloadInput,
    upload: UploadFacts,
    package: PackageFacts,
    user_id: Option<Uuid>,
    next: DownloadState,
    action: DownloadAction,
) -> bool {
    match spec_download_access(package.visibility@, user_id) {
        Ok(None) => next == DownloadState::Finished && (action matches DownloadAction::Insert(row)
            && is_download_row(
            row,
            input,
            package.package_id,
            upload.upload_id,
            upload.archive_format,
            user_id,
        )),
        Ok(Some(member)) => next == (DownloadState::AwaitingMembership {
            input,
            upload,
            package,
            user_id: member,
        }) && action == (DownloadAction::CheckMembership {
            org_id: package.org_id,
            user_id: member,
        }),
        Err(e) => next == DownloadState::Finished && action == DownloadAction::Refuse(e),
    }
}

/// One step of recording a download: validate, find the upload, find its
/// package, resolve the caller (if any), check membership of a non-public
/// package's organization, then insert.
pub open spec fn download_transition(
    state: DownloadState,
    event: DownloadEvent,
    next: DownloadState,
    action: DownloadAction,
) -> bool {
    match (state, event) {
        (DownloadState::Received { input, authenticated }, DownloadEvent::Start) => {
            match spec_validate_download(input) {
                Ok(_) => next == (DownloadState::AwaitingUpload { input, authenticated }) && action
                    == (DownloadAction::FindUpload { upload_id: input.upload_id }),
                Err(e) => next == DownloadState::Finished && action == DownloadAction::Refuse(e),
            }
        },
        (
            DownloadState::AwaitingUpload { input, authenticated },
            DownloadEvent::UploadLookedUp(found),
        ) => match found {
            None => next == DownloadState::Finished && action == DownloadAction::Refuse(
                RegistryError::UploadNotFound,
            ),
            Some(upload) => next == (DownloadState::AwaitingPackage {
                input,
                authenticated,
                upload,
            }) && action == (DownloadAction::FindPackage { package_id: upload.package_id }),
        },
        (
            DownloadState::AwaitingPackage { input, authenticated, upload },
            DownloadEvent::PackageLookedUp(found),
        ) => match found {
            None => next == DownloadState::Finished && action == DownloadAction::Refuse(
                RegistryError::PackageNotFound,
            ),
            Some(package) => if authenticated {
                next == (DownloadState::AwaitingUser { input, upload, package }) && action
                    == DownloadAction::ResolveUser
            } else {
                download_decision(input, upload, package, None, next, action)
            },
        },
        (
            DownloadState::AwaitingUser { input, upload, package },
            DownloadEvent::UserResolved { user_id },
        ) => download_decision(input, upload, package, Some(user_id), next, action),
        (
            DownloadState::AwaitingMembership { input, upload, package, user_id },
            DownloadEvent::MembershipChecked { is_member },
        ) => {
            &&& next == DownloadState::Finished
            &&& if is_member {
                action matches DownloadAction::Insert(row) && is_download_row(
                    row,
                    input,
                    package.package_id,
                    upload.upload_id,
                    upload.archive_format,
                    Some(user_id),
                )
            } else {
                action == DownloadAction::Refuse(RegistryError::MembershipRequired)
            }
        },
        _ => next == DownloadState::Finished && action == DownloadAction::Refuse(
            RegistryError::UnexpectedStep,
        ),
    }
}

fn decide_download(
    input: PackageDownloadInput,
    upload: UploadFacts,
    package: PackageFacts,
    user_id: Option<Uuid>,
) -> (r: (DownloadState, DownloadAction))
    ensures
        download_decision(input, upload, package, user_id, r.0, r.1),
        spec_validate_download(input) is Ok ==> download_state_ok(r.0),
{
    match download_access(package.visibility.as_str(), user_id) {
        Ok(None) => {
            let row = plan_new_download(
                input,
                package.package_id,
                upload.upload_id,
                upload.archive_format,
                user_id,
            );
            (DownloadState::Finished, DownloadAction::Insert(row))
        },
        Ok(Some(member)) => {
            let org_id = package.org_id;
            (
                DownloadState::AwaitingMembership { input, upload, package, user_id: member },
                DownloadAction::CheckMembership { org_id, user_id: member },
            )
        },
        Err(e) => (DownloadState::Finished, DownloadAction::Refuse(e)),
    }
}

/// Advance a download recording by one step.
pub fn download_step(state: DownloadState, event: DownloadEvent) -> (r: (
    DownloadState,
    DownloadAction,
))
    ensures
        download_transition(state, event, r.0, r.1),
        download_state_ok(state) ==> download_state_ok(r.0),
        r.1 matches DownloadAction::Insert(row) ==> (download_input(state) matches Some(input) && row.source == input.source &&
            row.request_id == input.request_id &&
            row.bytes_served == input.bytes_served &&
            row.completed == input.completed &&
            row.client_fingerprint_hash == input.client_fingerprint_hash &&
            row.user_agent_hash == input.user_agent_hash),
{
    match (state, event) {
        (DownloadState::Received { input, authenticated }, DownloadEvent::Start) => {
            match input.validate() {
                Ok(()) => {
                    let upload_id = input.upload_id;
                    (
                        DownloadState::AwaitingUpload { input, authenticated },
                        DownloadAction::FindUpload { upload_id },
                    )
                },
                Err(e) => (DownloadState::Finished, DownloadAction::Refuse(e)),
            }
        },
        (
            DownloadState::AwaitingUpload { input, authenticated },
            DownloadEvent::UploadLookedUp(found),
        ) => match found {
            None => (DownloadState::Finished, DownloadAction::Refuse(RegistryError::UploadNotFound)),
            Some(upload) => {
                let package_id = upload.package_id;
                (
                    DownloadState::AwaitingPackage { input, authenticated, upload },
                    DownloadAction::FindPackage { package_id },
                )
            },
        },
        (
            DownloadState::AwaitingPackage { input, authenticated, upload },
            DownloadEvent::PackageLookedUp(found),
        ) => match found {
            None => (
                DownloadState::Finished,
                DownloadAction::Refuse(RegistryError::PackageNotFound),
            ),
            Some(package) => if authenticated {
                (DownloadState::AwaitingUser { input, upload, package }, DownloadAction::ResolveUser)
            } else {
                decide_download(input, upload, package, None)
            },
        },
        (
            DownloadState::AwaitingUser { input, upload, package },
            DownloadEvent::UserResolved { user_id },
        ) => decide_download(input, upload, package, Some(user_id)),
        (
            DownloadState::AwaitingMembership { input, upload, package, user_id },
            DownloadEvent::MembershipChecked { is_member },
        ) => if is_member {
            let row = plan_new_download(
                input,
                package.package_id,
                upload.upload_id,
                upload.archive_format,
                Some(user_id),
            );
            (DownloadState::Finished, DownloadAction::Insert(row))
        } else {
            (DownloadState::Finished, DownloadAction::Refuse(RegistryError::MembershipRequired))
        },
        _ => (DownloadState::Finished, DownloadAction::Refuse(RegistryError::UnexpectedStep)),
    }
}

/// A download recording reads nothing before its input is valid, and records
/// a delivery only of a valid input: of a public package, or to a member of a
/// non-public package's organization.
pub proof fn lemma_download_checks_come_first(
    state: DownloadState,
    event: DownloadEvent,
    next: DownloadState,
    action: DownloadAction,
)
    requires
        download_state_ok(state),
        download_transition(state, event, next, action),
    ensures
        state matches DownloadState::Received { input, .. } ==> (action is FindUpload
            ==> spec_validate_download(input) is Ok),
        state matches DownloadState::Received { .. } ==> (action is FindUpload || action is Refuse),
        action matches DownloadAction::Insert(row) ==> ({
            &&& download_input(state) matches Some(input) && spec_validate_download(input) is Ok
            &&& (event matches DownloadEvent::MembershipChecked { is_member } && is_member)
                || (event matches DownloadEvent::PackageLookedUp(Some(package))
                && package.visibility@ == "public"@) || (event matches DownloadEvent::UserResolved {
                .. } && state matches DownloadState::AwaitingUser { package, .. }
                && package.visibility@ == "public"@)
        }),
{
}

// ---------------------------------------------------------------- invitations

/// The facts read about a live invitation whose token hash matches.
#[derive(Debug, PartialEq, Eq)]
pub struct InvitationFacts {
    pub invitation_id: Uuid,
    /// The organization (for an organization invitation) or the project (for
    /// a project invitation) it grants membership of.
    pub target_id: Uuid,
    pub email: String,
    pub role: String,
}

/// Where accepting an invitation stands.
#[derive(Debug)]
pub enum AcceptState {
    /// The presented token and the verified identity have arrived.
    Received { token: String, identity: SessionIdentity },
    /// The token and the verified email are well formed; the caller is being
    /// projected into the registry.
    Projecting { token: String, email: String },
    /// Live invitations carrying the token's hash are being looked up.
    Selecting { token: String, email: String, user_id: Uuid },
    /// The one matching invitation, addressed to the caller, is being consumed.
    Consuming {
        token: String,
        email: String,
        user_id: Uuid,
        kind: InvitationKind,
        invitation: InvitationFacts,
    },
    /// The invitation is consumed; the membership is being inserted.
    Joining {
        token: String,
        email: String,
        user_id: Uuid,
        kind: InvitationKind,
        invitation: InvitationFacts,
    },
    /// The membership exists; its target is being described.
    Describing {
        token: String,
        email: String,
        user_id: Uuid,
        kind: InvitationKind,
        invitation: InvitationFacts,
    },
    Finished,
}

/// An answer to an invitation acceptance's last action.
#[derive(Debug)]
pub enum AcceptEvent {
    Start,
    /// The caller's registry user id.
    UserProjected { user_id: Uuid },
    /// The live organization and project invitations carrying the token's hash.
    InvitationsFound { org: Option<InvitationFacts>, project: Option<InvitationFacts> },
    /// How many invitation rows the consuming statement updated.
    Consumed { rows_affected: u64 },
    /// The membership row is in place (an existing membership is kept).
    Joined,
    /// The invitation's target, if it still exists.
    TargetDescribed(Option<InvitationTarget>),
}

/// What accepting an invitation asks the data plane to do next.
#[derive(Debug, PartialEq, Eq)]
pub enum AcceptAction {
    /// Project the verified identity into the registry.
    ProjectUser,
    /// Hash the token and, in a new transaction, read the live invitations.
    LookUpInvitations,
    /// Run the consuming statement of `kind` for `invitation_id`.
    Consume { kind: InvitationKind, invitation_id: Uuid },
    /// Insert `user_id` as a member of `target_id` with `role`, keeping any
    /// existing membership.
    Join { kind: InvitationKind, target_id: Uuid, user_id: Uuid, role: String },
    /// Read the organization (and project) that `target_id` names.
    DescribeTarget { kind: InvitationKind, target_id: Uuid },
    /// Commit and return the acceptance; the operation is done.
    Accept(InvitationAcceptance),
    Refuse(RegistryError),
}

/// What an invitation acceptance's state guarantees.
pub open spec fn accept_state_ok(state: AcceptState) -> bool {
    match state {
        AcceptState::Projecting { token, .. } => is_token_shape(token@),
        AcceptState::Selecting { token, .. } => is_token_shape(token@),
        AcceptState::Consuming { token, email, invitation, .. } => is_token_shape(token@)
            && emails_match(invitation.email@, email@),
        AcceptState::Joining { token, email, invitation, .. } => is_token_shape(token@)
            && emails_match(invitation.email@, email@),
        AcceptState::Describing { token, email, invitation, .. } => is_token_shape(token@)
            && emails_match(invitation.email@, email@),
        _ => true,
    }
}

/// The invitation chosen when exactly one of `org` and `project` is present.
pub open spec fn chosen_invitation(
    org: Option<InvitationFacts>,
    project: Option<InvitationFacts>,
) -> Option<(InvitationKind, InvitationFacts)> {
    match (org, project) {
        (Some(i), None) => Some((InvitationKind::Organization, i)),
        (None, Some(i)) => Some((InvitationKind::Project, i)),
        _ => None,
    }
}

/// One step of accepting an invitation: check the token and the verified
/// email, project the caller, look up the live invitations, require exactly
/// one addressed to the caller, consume it exactly once, insert the
/// membership, describe the target, accept.
pub open spec fn accept_transition(
    state: AcceptState,
    event: AcceptEvent,
    next: AcceptState,
    action: AcceptAction,
) -> bool {
    match (state, event) {
        (AcceptState::Received { token, identity }, AcceptEvent::Start) => if !is_token_shape(
            token@,
        ) {
            next == AcceptState::Finished && action == AcceptAction::Refuse(
                RegistryError::InvalidInvitation,
            )
        } else {
            match spec_normalized_identity_email(optional_view(identity.email)) {
                Ok(e) => (next matches AcceptState::Projecting { token: t, email } && t == token
                    && email@ == e) && action == AcceptAction::ProjectUser,
                Err(err) => next == AcceptState::Finished && action == AcceptAction::Refuse(err),
            }
        },
        (AcceptState::Projecting { token, email }, AcceptEvent::UserProjected { user_id }) => next
            == (AcceptState::Selecting { token, email, user_id }) && action
            == AcceptAction::LookUpInvitations,
        (
            AcceptState::Selecting { token, email, user_id },
            AcceptEvent::InvitationsFound { org, project },
        ) => match chosen_invitation(org, project) {
            None => next == AcceptState::Finished && action == AcceptAction::Refuse(
                if org is Some {
                    RegistryError::AmbiguousInvitation
                } else {
                    RegistryError::InvalidInvitation
                },
            ),
            Some((kind, invitation)) => if emails_match(invitation.email@, email@) {
                next == (AcceptState::Consuming { token, email, user_id, kind, invitation })
                    && action == (AcceptAction::Consume {
                    kind,
                    invitation_id: invitation.invitation_id,
                })
            } else {
                next == AcceptState::Finished && action == AcceptAction::Refuse(
                    RegistryError::InvalidInvitation,
                )
            },
        },
        (
            AcceptState::Consuming { token, email, user_id, kind, invitation },
            AcceptEvent::Consumed { rows_affected },
        ) => if rows_affected == 1 {
            next == (AcceptState::Joining { token, email, user_id, kind, invitation }) && action
                == (AcceptAction::Join {
                kind,
                target_id: invitation.target_id,
                user_id,
                role: invitation.role,
            })
        } else {
            next == AcceptState::Finished && action == AcceptAction::Refuse(
                RegistryError::InvalidInvitation,
            )
        },
        (AcceptState::Joining { token, email, user_id, kind, invitation }, AcceptEvent::Joined) => {
            next == (AcceptState::Describing { token, email, user_id, kind, invitation }) && action
                == (AcceptAction::DescribeTarget { kind, target_id: invitation.target_id })
        },
        (
            AcceptState::Describing { user_id, invitation, .. },
            AcceptEvent::TargetDescribed(found),
        ) => {
            &&& next == AcceptState::Finished
            &&& match found {
                None => action == AcceptAction::Refuse(RegistryError::InvalidInvitation),
                Some(target) => action == AcceptAction::Accept(
                    InvitationAcceptance {
                        invitation_id: invitation.invitation_id,
                        user_id,
                        role: invitation.role,
                        target,
                    },
                ),
            }
        },
        _ => next == AcceptState::Finished && action == AcceptAction::Refuse(
            RegistryError::UnexpectedStep,
        ),
    }
}

/// Advance an invitation acceptance by one step.
pub fn accept_step(state: AcceptState, event: AcceptEvent) -> (r: (AcceptState, AcceptAction))
    ensures
        accept_transition(state, event, r.0, r.1),
        accept_state_ok(state) ==> accept_state_ok(r.0),
        r.1 matches AcceptAction::Consume { kind, invitation_id } ==> (event matches AcceptEvent::InvitationsFound { org, project } && ((org matches Some(i) && project is None
            && kind == InvitationKind::Organization && invitation_id == i.invitation_id) || (
            project matches Some(i) && org is None && kind == InvitationKind::Project
            && invitation_id == i.invitation_id))),
{
    match (state, event) {
        (AcceptState::Received { token, identity }, AcceptEvent::Start) => {
            if let Err(e) = validate_token(token.as_str()) {
                return (AcceptState::Finished, AcceptAction::Refuse(e));
            }
            match normalized_identity_email(&identity) {
                Ok(email) => (AcceptState::Projecting { token, email }, AcceptAction::ProjectUser),
                Err(e) => (AcceptState::Finished, AcceptAction::Refuse(e)),
            }
        },
        (AcceptState::Projecting { token, email }, AcceptEvent::UserProjected { user_id }) => (
            AcceptState::Selecting { token, email, user_id },
            AcceptAction::LookUpInvitations,
        ),
        (
            AcceptState::Selecting { token, email, user_id },
            AcceptEvent::InvitationsFound { org, project },
        ) => {
            let kind = match select_invitation(org.is_some(), project.is_some()) {
                Ok(kind) => kind,
                Err(e) => {
                    return (AcceptState::Finished, AcceptAction::Refuse(e));
                },
            };
            let invitation = match (org, project) {
                (Some(i), None) => i,
                (None, Some(i)) => i,
                _ => {
                    return (
                        AcceptState::Finished,
                        AcceptAction::Refuse(RegistryError::UnexpectedStep),
                    );
                },
            };
            match require_matching_email(invitation.email.as_str(), email.as_str()) {
                Ok(()) => {
                    let invitation_id = invitation.invitation_id;
                    (
                        AcceptState::Consuming { token, email, user_id, kind, invitation },
                        AcceptAction::Consume { kind, invitation_id },
                    )
                },
                Err(e) => (AcceptState::Finished, AcceptAction::Refuse(e)),
            }
        },
        (
            AcceptState::Consuming { token, email, user_id, kind, invitation },
            AcceptEvent::Consumed { rows_affected },
        ) => match require_single_use(rows_affected) {
            Ok(()) => {
                let target_id = invitation.target_id;
                let role = invitation.role.clone();
                (
                    AcceptState::Joining { token, email, user_id, kind, invitation },
                    AcceptAction::Join { kind, target_id, user_id, role },
                )
            },
            Err(e) => (AcceptState::Finished, AcceptAction::Refuse(e)),
        },
        (AcceptState::Joining { token, email, user_id, kind, invitation }, AcceptEvent::Joined) => {
            let target_id = invitation.target_id;
            (
                AcceptState::Describing { token, email, user_id, kind, invitation },
                AcceptAction::DescribeTarget { kind, target_id },
            )
        },
        (
            AcceptState::Describing { user_id, invitation, .. },
            AcceptEvent::TargetDescribed(found),
        ) => match found {
            None => (AcceptState::Finished, AcceptAction::Refuse(RegistryError::InvalidInvitation)),
            Some(target) => (
                AcceptState::Finished,
                AcceptAction::Accept(
                    InvitationAcceptance {
                        invitation_id: invitation.invitation_id,
                        user_id,
                        role: invitation.role,
                        target,
                    },
                ),
            ),
        },
        _ => (AcceptState::Finished, AcceptAction::Refuse(RegistryError::UnexpectedStep)),
    }
}

/// Accepting an invitation projects no user before the token and the verified
/// email are well formed, consumes an invitation only when it is the single
/// live one for the token and is addressed to the caller, and inserts a
/// membership only after exactly one invitation row was consumed.
pub proof fn lemma_accept_checks_come_first(
    state: AcceptState,
    event: AcceptEvent,
    next: AcceptState,
    action: AcceptAction,
)
    requires
        accept_state_ok(state),
        accept_transition(state, event, next, action),
    ensures
        action is ProjectUser ==> (state matches AcceptState::Received { token, identity }
            && is_token_shape(token@) && spec_normalized_identity_email(
            optional_view(identity.email),
        ) is Ok),
        action matches AcceptAction::Consume { .. } ==> (state matches AcceptState::Selecting {
            token,
            email,
            ..
        } && is_token_shape(token@) && (event matches AcceptEvent::InvitationsFound {
            org,
            project,
        } && (chosen_invitation(org, project) matches Some((_, invitation)) && emails_match(
            invitation.email@,
            email@,
        )))),
        action matches AcceptAction::Join { .. } ==> event == (AcceptEvent::Consumed {
            rows_affected: 1,
        }),
        action matches AcceptAction::Accept(_) ==> state is Describing,
{
}

// ---------------------------------------------------------------- row laws

/// An upload row is the caller's input, unchanged, for the package that was
/// found: every field the caller gave (its version, VCS tag and commit among
/// them) is stored as given, the uploader is the caller, and the lifecycle
/// timestamps follow the input's state.
pub proof fn lemma_upload_row_keeps_the_input(
    state: UploadState,
    event: UploadEvent,
    next: UploadState,
    row: NewUpload,
)
    requires
        upload_transition(state, event, next, UploadAction::Insert(row)),
    ensures
        (state matches UploadState::Authorized {
            input,
            actor_id,
            ..
        } && (event matches UploadEvent::PackageLookedUp(Some(package_id)) && row.package_id
            == package_id) && row.uploader_user_id == Some(actor_id) && row.stamps.published == (input.state@ == "published"@) && row.stamps.verified == (input.state@
            == "verified"@ || input.state@ == "published"@) && row.stamps.uploaded == (input.state@ != "pending"@) && row.source_upload_id == input.source_upload_id &&
            row.version == input.version &&
            row.archive_format == input.archive_format &&
            row.state == input.state &&
            row.storage_backend == input.storage_backend &&
            row.storage_bucket == input.storage_bucket &&
            row.storage_key == input.storage_key &&
            row.original_filename == input.original_filename &&
            row.size_bytes == input.size_bytes &&
            row.sha256 == input.sha256 &&
            row.vcs_tag == input.vcs_tag &&
            row.vcs_commit == input.vcs_commit &&
            row.metadata == input.metadata),
{
}

/// A download row records the delivery the caller reported: its source,
/// request id, byte count, completion flag and hashes are stored as given.
pub proof fn lemma_download_row_keeps_the_input(
    state: DownloadState,
    event: DownloadEvent,
    next: DownloadState,
    row: NewDownload,
)
    requires
        download_transition(state, event, next, DownloadAction::Insert(row)),
    ensures
        (download_input(state) matches Some(input) && row.source == input.source &&
            row.request_id == input.request_id &&
            row.bytes_served == input.bytes_served &&
            row.completed == input.completed &&
            row.client_fingerprint_hash == input.client_fingerprint_hash &&
            row.user_agent_hash == input.user_agent_hash),
        event matches DownloadEvent::MembershipChecked { .. } ==> (state matches
            DownloadState::AwaitingMembership { user_id, .. } && row.user_id == Some(user_id)),
        event matches DownloadEvent::UserResolved { user_id } ==> row.user_id == Some(user_id),
        event matches DownloadEvent::PackageLookedUp(_) ==> row.user_id is None,
{
}

/// A package row is the caller's input, unchanged (its project among it), in
/// the caller's organization, created by the caller, private, never public,
/// with no downloads or uploads.
pub proof fn lemma_package_row_keeps_the_input(
    state: CreateState,
    event: CreateEvent,
    next: CreateState,
    row: NewPackage,
)
    requires
        create_transition(state, event, next, CreateAction::Insert(row)),
    ensures
        ((state matches CreateState::Validated(input) && (
            event matches CreateEvent::MemberResolved { actor_id, org_id, .. } && row.org_id
            == org_id && row.created_by_user_id == Some(actor_id)
            && row.visibility_changed_by_user_id == Some(actor_id) && row.project_id == input.project_id &&
            row.name == input.name &&
            row.description == input.description &&
            row.vcs == input.vcs &&
            row.repo_url == input.repo_url &&
            row.config == input.config &&
            row.default_archive_format == input.default_archive_format)) || (state matches CreateState::CheckingProject { input, actor_id, org_id, .. } && row.org_id
            == org_id && row.created_by_user_id == Some(actor_id)
            && row.visibility_changed_by_user_id == Some(actor_id) && row.project_id == input.project_id &&
            row.name == input.name &&
            row.description == input.description &&
            row.vcs == input.vcs &&
            row.repo_url == input.repo_url &&
            row.config == input.config &&
            row.default_archive_format == input.default_archive_format)),
        (row.visibility@ == "private"@ && !row.has_been_public
            && row.download_count == 0 && row.upload_count == 0),
{
}

/// A license row is the caller's input, unchanged (its text among it), for
/// the package that was found; the current primary license is demoted exactly
/// when the new one is primary.
pub proof fn lemma_license_row_keeps_the_input(
    state: LicenseState,
    event: LicenseEvent,
    next: LicenseState,
    row: NewLicense,
)
    requires
        license_transition(state, event, next, LicenseAction::Insert(row)),
    ensures
        (state matches LicenseState::Authorized {
            input,
            actor_id,
            ..
        } && (event matches LicenseEvent::PackageLookedUp(Some(package_id)) && row.package_id
            == package_id) && row.created_by_user_id == Some(actor_id)
            && row.clear_existing_primary == input.is_primary && row.spdx_expression == input.spdx_expression &&
            row.license_name == input.license_name &&
            row.license_url == input.license_url &&
            row.license_text == input.license_text &&
            row.checksum_sha256 == input.checksum_sha256 &&
            row.is_primary == input.is_primary),
{
}

/// The invitation consumed is the one that was found, in the table of its
/// kind: an organization invitation is consumed as an organization
/// invitation, a project invitation as a project invitation.
pub proof fn lemma_consumed_invitation_is_the_one_found(
    state: AcceptState,
    event: AcceptEvent,
    next: AcceptState,
    kind: InvitationKind,
    invitation_id: Uuid,
)
    requires
        accept_transition(state, event, next, AcceptAction::Consume { kind, invitation_id }),
    ensures
        (event matches AcceptEvent::InvitationsFound { org, project } && ((org matches Some(i) && project is None
            && kind == InvitationKind::Organization && invitation_id == i.invitation_id) || (
            project matches Some(i) && org is None && kind == InvitationKind::Project
            && invitation_id == i.invitation_id))),
        next matches AcceptState::Consuming { kind: k, invitation, .. } && k == kind
            && invitation.invitation_id == invitation_id,
{
}

// ---------------------------------------------------------------- routing laws

/// Each lookup an operation asks for names what the previous answer gave: the
/// package is looked up in the caller's organization, and a publication
/// records the caller and targets the row that was locked.
pub proof fn lemma_lookups_follow_the_answers(
    upload: (UploadState, UploadEvent, UploadState, UploadAction),
    license: (LicenseState, LicenseEvent, LicenseState, LicenseAction),
    create: (CreateState, CreateEvent, CreateState, CreateAction),
    publish: (PublishState, PublishEvent, PublishState, PublishAction),
)
    requires
        upload_transition(upload.0, upload.1, upload.2, upload.3),
        license_transition(license.0, license.1, license.2, license.3),
        create_transition(create.0, create.1, create.2, create.3),
        publish_transition(publish.0, publish.1, publish.2, publish.3),
    ensures
        upload.3 matches UploadAction::FindPackage { org_id } ==> (upload.1 matches
            UploadEvent::MemberResolved { org_id: o, actor_id, .. } && o == org_id && (upload.2 matches
            UploadState::Authorized { actor_id: a, .. } && a == actor_id)),
        license.3 matches LicenseAction::FindPackage { org_id } ==> (license.1 matches
            LicenseEvent::MemberResolved { org_id: o, actor_id, .. } && o == org_id && (license.2 matches
            LicenseState::Authorized { actor_id: a, .. } && a == actor_id)),
        create.3 matches CreateAction::CheckProject { project_id, org_id } ==> (create.1 matches
            CreateEvent::MemberResolved { org_id: o, .. } && o == org_id && (create.0 matches
            CreateState::Validated(input) && input.project_id == Some(project_id))),
        publish.3 matches PublishAction::LockPackage { org_id } ==> (publish.1 matches
            PublishEvent::MemberResolved { org_id: o, actor_id, .. } && o == org_id && (publish.2 matches
            PublishState::Locking { actor_id: a, .. } && a == actor_id)),
        publish.3 matches PublishAction::Publish { package_id, actor_id } ==> (publish.1 matches
            PublishEvent::RowLocked(Some(row)) && row.package_id == package_id && row.visibility@
            == "private"@ && (publish.0 matches PublishState::Locking { actor_id: a, .. } && a
            == actor_id)),
        publish.3 matches PublishAction::ReturnUnchanged { package_id } ==> (publish.1 matches
            PublishEvent::RowLocked(Some(row)) && row.package_id == package_id && row.visibility@
            == "public"@),
{
    reveal_strlit("public");
    reveal_strlit("private");
    assert("public"@[1] != "private"@[1]);
}

/// A download looks up the upload the caller named, then that upload's
/// package, and checks membership of that package's organization for the
/// resolved caller.
pub proof fn lemma_download_lookups_follow_the_answers(
    state: DownloadState,
    event: DownloadEvent,
    next: DownloadState,
    action: DownloadAction,
)
    requires
        download_transition(state, event, next, action),
    ensures
        action matches DownloadAction::FindUpload { upload_id } ==> (state matches
            DownloadState::Received { input, .. } && input.upload_id == upload_id),
        action matches DownloadAction::FindPackage { package_id } ==> (event matches
            DownloadEvent::UploadLookedUp(Some(upload)) && upload.package_id == package_id),
        action matches DownloadAction::CheckMembership { org_id, user_id } ==> ((event matches
            DownloadEvent::UserResolved { user_id: u } && u == user_id && (state matches
            DownloadState::AwaitingUser { package, .. } && package.org_id == org_id
            && package.visibility@ != "public"@))),
        action matches DownloadAction::Insert(row) ==> (row.archive_format == match state {
            DownloadState::AwaitingPackage { upload, .. } => upload.archive_format,
            DownloadState::AwaitingUser { upload, .. } => upload.archive_format,
            DownloadState::AwaitingMembership { upload, .. } => upload.archive_format,
            _ => row.archive_format,
        } && (state is AwaitingPackage || state is AwaitingUser || state is AwaitingMembership)),
{
}

/// After consuming an invitation, the membership inserted is the caller's,
/// in the invitation's target, with the invitation's role; the acceptance
/// returned names that invitation, the caller, the role and the target found.
pub proof fn lemma_membership_follows_the_invitation(
    state: AcceptState,
    event: AcceptEvent,
    next: AcceptState,
    action: AcceptAction,
)
    requires
        accept_transition(state, event, next, action),
    ensures
        action matches AcceptAction::Join { kind, target_id, user_id, role } ==> (state matches
            AcceptState::Consuming { kind: k, user_id: u, invitation, .. } && k == kind && u
            == user_id && invitation.target_id == target_id && invitation.role == role),
        action matches AcceptAction::DescribeTarget { kind, target_id } ==> (state matches
            AcceptState::Joining { kind: k, invitation, .. } && k == kind && invitation.target_id
            == target_id),
        action matches AcceptAction::Accept(acceptance) ==> (state matches
            AcceptState::Describing { user_id, invitation, .. } && acceptance.invitation_id
            == invitation.invitation_id && acceptance.user_id == user_id && acceptance.role
            == invitation.role && (event matches AcceptEvent::TargetDescribed(Some(target))
            && acceptance.target == target)),
{
}

} // verus!
