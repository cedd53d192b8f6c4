use sea_orm::prelude::{Json, Uuid};
use zed_lib::error::RegistryError;
use zed_lib::invitations::InvitationKind;
use zed_lib::models::{InvitationAcceptance, InvitationTarget, SessionIdentity};
use zed_lib::policy::PublicTransitionDenied;
use zed_lib::registry::artifacts::{PackageDownloadInput, PackageUploadInput};
use zed_lib::registry::flows::{
    accept_step, create_step, download_step, license_step, publish_step, upload_step,
    AcceptAction, AcceptEvent, AcceptState, CreateAction, CreateEvent, CreateState,
    DownloadAction, DownloadEvent, DownloadState, InvitationFacts, LicenseAction, LicenseEvent,
    LicenseState, LockedPackage, PackageFacts, PublishAction, PublishEvent, PublishState,
    UploadAction, UploadEvent, UploadFacts, UploadState,
};
use zed_lib::registry::packages::{CreatePackageInput, PackageLicenseInput};

fn id(n: u128) -> Uuid {
    Uuid::from_u128(n)
}

fn upload_input(version: &str) -> PackageUploadInput {
    PackageUploadInput {
        source_upload_id: None,
        version: version.into(),
        archive_format: "zip".into(),
        state: "published".into(),
        storage_backend: "s3".into(),
        storage_bucket: "b".into(),
        storage_key: "k".into(),
        original_filename: None,
        size_bytes: 1,
        sha256: "a".repeat(64),
        vcs_tag: None,
        vcs_commit: None,
        metadata: Json::Null,
    }
}

#[test]
fn upload_validates_before_any_read_and_writes_last() {
    let (s, a) = upload_step(UploadState::Received(upload_input(" ")), UploadEvent::Start);
    assert!(matches!(s, UploadState::Finished));
    assert_eq!(a, UploadAction::Refuse(RegistryError::InvalidField(zed_lib::error::Field::Version)));

    let (s, a) = upload_step(UploadState::Received(upload_input("1.0")), UploadEvent::Start);
    assert_eq!(a, UploadAction::ResolveMember);
    let (s2, a) = upload_step(
        s,
        UploadEvent::MemberResolved { actor_id: id(1), org_id: id(2), role: "reader".into() },
    );
    assert!(matches!(s2, UploadState::Finished));
    assert_eq!(a, UploadAction::Refuse(RegistryError::WriterRequired));

    let (s, _) = upload_step(UploadState::Received(upload_input("1.0")), UploadEvent::Start);
    let (s, a) = upload_step(
        s,
        UploadEvent::MemberResolved { actor_id: id(1), org_id: id(2), role: "member".into() },
    );
    assert_eq!(a, UploadAction::FindPackage { org_id: id(2) });
    let (_, a) = upload_step(s, UploadEvent::PackageLookedUp(Some(id(3))));
    match a {
        UploadAction::Insert(row) => {
            assert_eq!(row.package_id, id(3));
            assert_eq!(row.uploader_user_id, Some(id(1)));
            assert!(row.stamps.published);
        }
        other => panic!("unexpected {other:?}"),
    }

    let (s, _) = upload_step(UploadState::Received(upload_input("1.0")), UploadEvent::Start);
    let (s, _) = upload_step(
        s,
        UploadEvent::MemberResolved { actor_id: id(1), org_id: id(2), role: "owner".into() },
    );
    let (_, a) = upload_step(s, UploadEvent::PackageLookedUp(None));
    assert_eq!(a, UploadAction::Refuse(RegistryError::PackageNotFound));

    let (_, a) = upload_step(UploadState::Received(upload_input("1.0")), UploadEvent::PackageLookedUp(Some(id(3))));
    assert_eq!(a, UploadAction::Refuse(RegistryError::UnexpectedStep));
}

fn package_input(project: Option<Uuid>) -> CreatePackageInput {
    CreatePackageInput {
        project_id: project,
        name: "kit".into(),
        description: None,
        vcs: "git".into(),
        repo_url: "https://example.test/kit".into(),
        config: Json::Null,
        default_archive_format: "tar".into(),
    }
}

#[test]
fn create_checks_the_project_before_inserting_a_private_package() {
    let (s, a) = create_step(CreateState::Received(package_input(Some(id(9)))), CreateEvent::Start);
    assert_eq!(a, CreateAction::ResolveMember);
    let (s, a) = create_step(
        s,
        CreateEvent::MemberResolved { actor_id: id(1), org_id: id(2), role: "admin".into() },
    );
    assert_eq!(a, CreateAction::CheckProject { project_id: id(9), org_id: id(2) });
    let (_, a) = create_step(s, CreateEvent::ProjectChecked { in_org: false });
    assert_eq!(a, CreateAction::Refuse(RegistryError::ProjectOutsideOrganization));

    let (s, _) = create_step(CreateState::Received(package_input(None)), CreateEvent::Start);
    let (_, a) = create_step(
        s,
        CreateEvent::MemberResolved { actor_id: id(1), org_id: id(2), role: "member".into() },
    );
    match a {
        CreateAction::Insert(row) => {
            assert_eq!(row.visibility, "private");
            assert!(!row.has_been_public);
            assert_eq!((row.download_count, row.upload_count), (0, 0));
            assert_eq!(row.created_by_user_id, Some(id(1)));
            assert_eq!(row.org_id, id(2));
        }
        other => panic!("unexpected {other:?}"),
    }

    let mut bad = package_input(None);
    bad.name = "a/b".into();
    let (_, a) = create_step(CreateState::Received(bad), CreateEvent::Start);
    assert_eq!(a, CreateAction::Refuse(RegistryError::InvalidPackageName));
}

#[test]
fn license_insert_follows_validation_and_role() {
    let input = PackageLicenseInput {
        spdx_expression: Some("MIT".into()),
        license_name: None,
        license_url: None,
        license_text: None,
        checksum_sha256: None,
        is_primary: true,
    };
    let (s, a) = license_step(LicenseState::Received(input), LicenseEvent::Start);
    assert_eq!(a, LicenseAction::ResolveMember);
    let (s, a) = license_step(
        s,
        LicenseEvent::MemberResolved { actor_id: id(1), org_id: id(2), role: "member".into() },
    );
    assert_eq!(a, LicenseAction::FindPackage { org_id: id(2) });
    let (_, a) = license_step(s, LicenseEvent::PackageLookedUp(Some(id(5))));
    match a {
        LicenseAction::Insert(row) => {
            assert!(row.clear_existing_primary);
            assert_eq!(row.package_id, id(5));
        }
        other => panic!("unexpected {other:?}"),
    }
    let blank = PackageLicenseInput {
        spdx_expression: None,
        license_name: Some(" ".into()),
        license_url: None,
        license_text: None,
        checksum_sha256: None,
        is_primary: false,
    };
    let (_, a) = license_step(LicenseState::Received(blank), LicenseEvent::Start);
    assert_eq!(a, LicenseAction::Refuse(RegistryError::LicenseRequired));
}

fn locked(visibility: &str, downloads: i64, age_micros: i64) -> LockedPackage {
    LockedPackage { package_id: id(7), visibility: visibility.into(), completed_downloads: downloads, age_micros }
}

fn publish_after(role: &str, row: Option<LockedPackage>) -> PublishAction {
    let (s, a) = publish_step(PublishState::Received, PublishEvent::Start);
    assert_eq!(a, PublishAction::ResolveMember);
    let (s, a) = publish_step(
        s,
        PublishEvent::MemberResolved { actor_id: id(1), org_id: id(2), role: role.into() },
    );
    if a != (PublishAction::LockPackage { org_id: id(2) }) {
        return a;
    }
    publish_step(s, PublishEvent::RowLocked(row)).1
}

#[test]
fn publishing_needs_an_administrator_and_the_policy() {
    assert_eq!(
        publish_after("member", Some(locked("private", 0, 0))),
        PublishAction::Refuse(RegistryError::AdministratorRequired)
    );
    assert_eq!(
        publish_after("owner", Some(locked("private", 50, 0))),
        PublishAction::Publish { package_id: id(7), actor_id: id(1) }
    );
    assert_eq!(
        publish_after("admin", Some(locked("public", 999, 0))),
        PublishAction::ReturnUnchanged { package_id: id(7) }
    );
    assert_eq!(
        publish_after("admin", Some(locked("private", 51, 0))),
        PublishAction::Refuse(RegistryError::TransitionDenied(
            PublicTransitionDenied::MoreThanFiftyDownloads { completed_downloads: 51 }
        ))
    );
    assert_eq!(
        publish_after("admin", Some(locked("internal", 0, 0))),
        PublishAction::Refuse(RegistryError::NotPrivate)
    );
    assert_eq!(publish_after("admin", None), PublishAction::Refuse(RegistryError::PackageNotFound));
}

fn download_input(source: &str) -> PackageDownloadInput {
    PackageDownloadInput {
        upload_id: id(10),
        request_id: Some(id(11)),
        source: source.into(),
        bytes_served: 3,
        completed: true,
        client_fingerprint_hash: None,
        user_agent_hash: None,
    }
}

fn upload_facts() -> UploadFacts {
    UploadFacts { upload_id: id(10), package_id: id(20), archive_format: "zip".into() }
}

fn package_facts(visibility: &str) -> PackageFacts {
    PackageFacts { package_id: id(20), org_id: id(30), visibility: visibility.into() }
}

#[test]
fn downloads_of_non_public_packages_need_a_member() {
    let (_, a) = download_step(
        DownloadState::Received { input: download_input("ftp"), authenticated: false },
        DownloadEvent::Start,
    );
    assert_eq!(a, DownloadAction::Refuse(RegistryError::InvalidDownloadSource));

    // Anonymous download of a public package.
    let (s, a) = download_step(
        DownloadState::Received { input: download_input("cli"), authenticated: false },
        DownloadEvent::Start,
    );
    assert_eq!(a, DownloadAction::FindUpload { upload_id: id(10) });
    let (s, a) = download_step(s, DownloadEvent::UploadLookedUp(Some(upload_facts())));
    assert_eq!(a, DownloadAction::FindPackage { package_id: id(20) });
    let (_, a) = download_step(s, DownloadEvent::PackageLookedUp(Some(package_facts("public"))));
    match a {
        DownloadAction::Insert(row) => {
            assert_eq!(row.user_id, None);
            assert_eq!(row.archive_format, "zip");
            assert_eq!(row.request_id, Some(id(11)));
        }
        other => panic!("unexpected {other:?}"),
    }

    // Anonymous download of a private package.
    let (s, _) = download_step(
        DownloadState::Received { input: download_input("cli"), authenticated: false },
        DownloadEvent::Start,
    );
    let (s, _) = download_step(s, DownloadEvent::UploadLookedUp(Some(upload_facts())));
    let (_, a) = download_step(s, DownloadEvent::PackageLookedUp(Some(package_facts("private"))));
    assert_eq!(a, DownloadAction::Refuse(RegistryError::AuthenticationRequired));

    // Authenticated download of a private package.
    let (s, _) = download_step(
        DownloadState::Received { input: download_input("web"), authenticated: true },
        DownloadEvent::Start,
    );
    let (s, _) = download_step(s, DownloadEvent::UploadLookedUp(Some(upload_facts())));
    let (s, a) = download_step(s, DownloadEvent::PackageLookedUp(Some(package_facts("private"))));
    assert_eq!(a, DownloadAction::ResolveUser);
    let (s, a) = download_step(s, DownloadEvent::UserResolved { user_id: id(40) });
    assert_eq!(a, DownloadAction::CheckMembership { org_id: id(30), user_id: id(40) });
    let (_, a) = download_step(s, DownloadEvent::MembershipChecked { is_member: false });
    assert_eq!(a, DownloadAction::Refuse(RegistryError::MembershipRequired));

    let (s, _) = download_step(
        DownloadState::Received { input: download_input("web"), authenticated: true },
        DownloadEvent::Start,
    );
    let (_, a) = download_step(s, DownloadEvent::UploadLookedUp(None));
    assert_eq!(a, DownloadAction::Refuse(RegistryError::UploadNotFound));
}

fn session(email: Option<&str>) -> SessionIdentity {
    SessionIdentity {
        subject: "s".into(),
        email: email.map(|e| e.to_string()),
        display_name: None,
        avatar_url: None,
    }
}

fn facts(email: &str) -> InvitationFacts {
    InvitationFacts { invitation_id: id(50), target_id: id(60), email: email.into(), role: "member".into() }
}

fn accept_until_consume(email: &str) -> (AcceptState, AcceptAction) {
    let (s, a) = accept_step(
        AcceptState::Received { token: "t".repeat(40), identity: session(Some(" User@Example.COM ")) },
        AcceptEvent::Start,
    );
    assert_eq!(a, AcceptAction::ProjectUser);
    let (s, a) = accept_step(s, AcceptEvent::UserProjected { user_id: id(1) });
    assert_eq!(a, AcceptAction::LookUpInvitations);
    accept_step(s, AcceptEvent::InvitationsFound { org: Some(facts(email)), project: None })
}

#[test]
fn invitations_are_checked_before_they_are_consumed() {
    let (_, a) = accept_step(
        AcceptState::Received { token: "short".into(), identity: session(Some("a@b")) },
        AcceptEvent::Start,
    );
    assert_eq!(a, AcceptAction::Refuse(RegistryError::InvalidInvitation));
    let (_, a) = accept_step(
        AcceptState::Received { token: "t".repeat(40), identity: session(None) },
        AcceptEvent::Start,
    );
    assert_eq!(a, AcceptAction::Refuse(RegistryError::VerifiedEmailRequired));

    let (_, a) = accept_until_consume("other@example.com");
    assert_eq!(a, AcceptAction::Refuse(RegistryError::InvalidInvitation));

    let (s, a) = accept_until_consume("USER@example.com");
    assert_eq!(a, AcceptAction::Consume { kind: InvitationKind::Organization, invitation_id: id(50) });
    let (s, a) = accept_step(s, AcceptEvent::Consumed { rows_affected: 1 });
    assert_eq!(
        a,
        AcceptAction::Join {
            kind: InvitationKind::Organization,
            target_id: id(60),
            user_id: id(1),
            role: "member".into()
        }
    );
    let (s, a) = accept_step(s, AcceptEvent::Joined);
    assert_eq!(a, AcceptAction::DescribeTarget { kind: InvitationKind::Organization, target_id: id(60) });
    let target = InvitationTarget::Organization { org_id: id(60), org_slug: "acme".into() };
    let (_, a) = accept_step(s, AcceptEvent::TargetDescribed(Some(target.clone())));
    assert_eq!(
        a,
        AcceptAction::Accept(InvitationAcceptance {
            invitation_id: id(50),
            user_id: id(1),
            role: "member".into(),
            target,
        })
    );

    let (s, _) = accept_until_consume("user@example.com");
    let (_, a) = accept_step(s, AcceptEvent::Consumed { rows_affected: 0 });
    assert_eq!(a, AcceptAction::Refuse(RegistryError::InvalidInvitation));

    let (s, _) = accept_step(
        AcceptState::Received { token: "t".repeat(40), identity: session(Some("a@b")) },
        AcceptEvent::Start,
    );
    let (s, _) = accept_step(s, AcceptEvent::UserProjected { user_id: id(1) });
    let (_, a) = accept_step(
        s,
        AcceptEvent::InvitationsFound { org: Some(facts("a@b")), project: Some(facts("a@b")) },
    );
    assert_eq!(a, AcceptAction::Refuse(RegistryError::AmbiguousInvitation));
}
