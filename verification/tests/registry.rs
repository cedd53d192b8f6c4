use zed_lib::registry::artifacts::{plan_new_download, plan_new_upload};
use zed_lib::registry::packages::{plan_new_license, plan_new_package};
use zed_lib::sql::{LOCK_PACKAGE_VISIBILITY_SQL, PUBLISH_PACKAGE_SQL};
use sea_orm::prelude::{Json, Uuid};
use zed_lib::error::{Field, RegistryError};
use zed_lib::policy::PublicTransitionDenied;
use zed_lib::registry::artifacts::{
    download_access, require_membership, upload_stamps, PackageDownloadInput,
    PackageUploadInput, UploadStamps,
};
use zed_lib::registry::packages::{
    plan_public_transition, require_project_in_org, CreatePackageInput, PackageLicenseInput,
    VisibilityTransition, INITIAL_VISIBILITY,
};

#[test]
fn download_input_cannot_carry_raw_network_or_session_data() {
    let input = PackageDownloadInput {
        upload_id: Uuid::nil(),
        request_id: None,
        source: "cli".into(),
        bytes_served: 0,
        completed: false,
        client_fingerprint_hash: None,
        user_agent_hash: None,
    };
    assert_eq!(input.source, "cli");
}

#[test]
fn package_create_input_has_no_public_visibility_escape_hatch() {
    let input = CreatePackageInput {
        project_id: None,
        name: "http-kit".into(),
        description: None,
        vcs: "git".into(),
        repo_url: "https://example.test/http-kit".into(),
        config: Json::Object(Default::default()),
        default_archive_format: "tar_gz".into(),
    };
    assert_eq!(input.name, "http-kit");
    assert_eq!(input.validate(), Ok(()));
    assert_eq!(INITIAL_VISIBILITY, "private");
}

fn upload(state: &str) -> PackageUploadInput {
    PackageUploadInput {
        source_upload_id: None,
        version: "1.0.0".into(),
        archive_format: "tar_gz".into(),
        state: state.into(),
        storage_backend: "s3".into(),
        storage_bucket: "artifacts".into(),
        storage_key: "org/http-kit/1.0.0.tar.gz".into(),
        original_filename: None,
        size_bytes: 10,
        sha256: "a".repeat(64),
        vcs_tag: None,
        vcs_commit: None,
        metadata: Json::Null,
    }
}

#[test]
fn uploads_are_checked_in_order() {
    assert_eq!(upload("pending").validate(), Ok(()));
    let mut u = upload("pending");
    u.version = " ".into();
    u.archive_format = "rar".into();
    assert_eq!(u.validate(), Err(RegistryError::InvalidField(Field::Version)));
    let mut u = upload("pending");
    u.archive_format = "rar".into();
    assert_eq!(u.validate(), Err(RegistryError::InvalidArchiveFormat));
    assert_eq!(upload("gone").validate(), Err(RegistryError::InvalidUploadState));
    let mut u = upload("verified");
    u.storage_backend = "b".repeat(65);
    assert_eq!(u.validate(), Err(RegistryError::InvalidField(Field::StorageBackend)));
    let mut u = upload("verified");
    u.storage_bucket = String::new();
    assert_eq!(u.validate(), Err(RegistryError::InvalidField(Field::StorageBucket)));
    let mut u = upload("verified");
    u.storage_key = "k".repeat(2049);
    assert_eq!(u.validate(), Err(RegistryError::InvalidField(Field::StorageKey)));
    let mut u = upload("verified");
    u.sha256 = "A".repeat(64);
    assert_eq!(u.validate(), Err(RegistryError::InvalidChecksum));
    let mut u = upload("verified");
    u.size_bytes = 0;
    assert_eq!(u.validate(), Err(RegistryError::NonPositiveUploadSize));
}

#[test]
fn upload_stamps_follow_the_state() {
    assert_eq!(
        upload_stamps("pending"),
        UploadStamps { uploaded: false, verified: false, published: false }
    );
    assert_eq!(
        upload_stamps("uploaded"),
        UploadStamps { uploaded: true, verified: false, published: false }
    );
    assert_eq!(
        upload_stamps("verified"),
        UploadStamps { uploaded: true, verified: true, published: false }
    );
    assert_eq!(
        upload_stamps("published"),
        UploadStamps { uploaded: true, verified: true, published: true }
    );
    for state in ["pending", "uploaded", "verified", "published", "rejected", "deleted"] {
        let s = upload_stamps(state);
        assert!(!s.published || s.verified);
        assert!(!s.verified || s.uploaded);
    }
}

#[test]
fn downloads_are_checked() {
    let mut d = PackageDownloadInput {
        upload_id: Uuid::nil(),
        request_id: None,
        source: "web".into(),
        bytes_served: 0,
        completed: true,
        client_fingerprint_hash: Some(vec![1, 2]),
        user_agent_hash: None,
    };
    assert_eq!(d.validate(), Ok(()));
    d.bytes_served = -1;
    assert_eq!(d.validate(), Err(RegistryError::NegativeBytesServed));
    d.source = "ftp".into();
    assert_eq!(d.validate(), Err(RegistryError::InvalidDownloadSource));
}

#[test]
fn non_public_packages_need_an_authenticated_member() {
    let user = Uuid::from_u128(7);
    assert_eq!(download_access("public", None), Ok(None));
    assert_eq!(download_access("public", Some(user)), Ok(None));
    assert_eq!(download_access("private", Some(user)), Ok(Some(user)));
    assert_eq!(download_access("internal", None), Err(RegistryError::AuthenticationRequired));
    assert_eq!(require_membership(true), Ok(()));
    assert_eq!(require_membership(false), Err(RegistryError::MembershipRequired));
}

#[test]
fn new_packages_are_checked_in_order() {
    let base = CreatePackageInput {
        project_id: None,
        name: "kit".into(),
        description: None,
        vcs: "git".into(),
        repo_url: "https://example.test/kit".into(),
        config: Json::Null,
        default_archive_format: "zip".into(),
    };
    let mut p = base.clone();
    p.name = "org/kit".into();
    assert_eq!(p.validate(), Err(RegistryError::InvalidPackageName));
    let mut p = base.clone();
    p.default_archive_format = "tgz".into();
    assert_eq!(p.validate(), Err(RegistryError::InvalidArchiveFormat));
    let mut p = base.clone();
    p.vcs = "v".repeat(33);
    assert_eq!(p.validate(), Err(RegistryError::InvalidField(Field::Vcs)));
    let mut p = base.clone();
    p.repo_url = " ".into();
    assert_eq!(p.validate(), Err(RegistryError::InvalidField(Field::RepositoryUrl)));
    assert_eq!(require_project_in_org(true), Ok(()));
    assert_eq!(require_project_in_org(false), Err(RegistryError::ProjectOutsideOrganization));
}

fn license(spdx: Option<&str>, name: Option<&str>, checksum: Option<&str>) -> PackageLicenseInput {
    PackageLicenseInput {
        spdx_expression: spdx.map(|s| s.to_string()),
        license_name: name.map(|s| s.to_string()),
        license_url: None,
        license_text: None,
        checksum_sha256: checksum.map(|s| s.to_string()),
        is_primary: true,
    }
}

#[test]
fn licenses_need_a_name_or_expression() {
    assert_eq!(license(Some("MIT"), None, None).validate(), Ok(()));
    assert_eq!(license(None, Some("Custom"), None).validate(), Ok(()));
    assert_eq!(license(Some("  "), Some("\t"), None).validate(), Err(RegistryError::LicenseRequired));
    assert_eq!(license(None, None, Some("bad")).validate(), Err(RegistryError::LicenseRequired));
    assert_eq!(license(Some("MIT"), None, Some("bad")).validate(), Err(RegistryError::InvalidChecksum));
    assert_eq!(license(Some("MIT"), None, Some(&"f".repeat(64))).validate(), Ok(()));
}

#[test]
fn private_to_public_is_one_way_and_bounded() {
    let ten_days_micros: i64 = 10 * 24 * 60 * 60 * 1_000_000;
    assert_eq!(plan_public_transition("public", 500, ten_days_micros * 9), Ok(VisibilityTransition::AlreadyPublic));
    assert_eq!(plan_public_transition("private", 50, ten_days_micros), Ok(VisibilityTransition::Publish));
    assert_eq!(plan_public_transition("internal", 0, 0), Err(RegistryError::NotPrivate));
    assert_eq!(plan_public_transition("private", 0, -1), Err(RegistryError::NegativePackageAge));
    assert_eq!(
        plan_public_transition("private", 0, ten_days_micros + 1),
        Err(RegistryError::TransitionDenied(PublicTransitionDenied::OlderThanTenDays {
            age_nanos: (ten_days_micros as u128 + 1) * 1000
        }))
    );
    assert_eq!(
        plan_public_transition("private", 51, 0),
        Err(RegistryError::TransitionDenied(PublicTransitionDenied::MoreThanFiftyDownloads {
            completed_downloads: 51
        }))
    );
    assert_eq!(
        plan_public_transition("private", -1, 0),
        Err(RegistryError::TransitionDenied(PublicTransitionDenied::InvalidDownloadCount(-1)))
    );
    assert_eq!(plan_public_transition("private", 0, i64::MAX).is_err(), true);
}

#[test]
fn visibility_transition_reads_under_a_row_lock() {
    assert!(LOCK_PACKAGE_VISIBILITY_SQL.ends_with("FOR UPDATE"));
    assert!(PUBLISH_PACKAGE_SQL.starts_with("UPDATE package SET visibility = 'public'"));
}

#[test]
fn new_rows_carry_the_actor_and_start_private() {
    let actor = Uuid::from_u128(1);
    let org = Uuid::from_u128(2);
    let input = CreatePackageInput {
        project_id: Some(Uuid::from_u128(3)),
        name: "kit".into(),
        description: Some("d".into()),
        vcs: "git".into(),
        repo_url: "https://example.test/kit".into(),
        config: Json::Null,
        default_archive_format: "zip".into(),
    };
    let row = plan_new_package(input, org, actor);
    assert_eq!(row.visibility, "private");
    assert_eq!((row.download_count, row.upload_count), (0, 0));
    assert_eq!(row.created_by_user_id, Some(actor));
    assert_eq!(row.visibility_changed_by_user_id, Some(actor));
    assert_eq!(row.org_id, org);
    assert_eq!(row.name, "kit");

    let pkg = Uuid::from_u128(4);
    let up = plan_new_upload(upload("published"), pkg, actor);
    assert_eq!(up.uploader_user_id, Some(actor));
    assert_eq!(up.package_id, pkg);
    assert_eq!(up.stamps, UploadStamps { uploaded: true, verified: true, published: true });

    let d = PackageDownloadInput {
        upload_id: Uuid::from_u128(5),
        request_id: None,
        source: "api".into(),
        bytes_served: 9,
        completed: true,
        client_fingerprint_hash: None,
        user_agent_hash: None,
    };
    let dl = plan_new_download(d, pkg, Uuid::from_u128(5), "zip".into(), Some(actor));
    assert_eq!(dl.request_id, None);
    assert_eq!(dl.archive_format, "zip");
    assert_eq!(dl.user_id, Some(actor));

    let lic = plan_new_license(license(Some("MIT"), None, None), pkg, actor);
    assert!(lic.clear_existing_primary);
    assert_eq!(lic.created_by_user_id, Some(actor));
    let mut secondary = license(Some("MIT"), None, None);
    secondary.is_primary = false;
    assert!(!plan_new_license(secondary, pkg, actor).clear_existing_primary);
}
