use zed_lib::error::{Field, RegistryError};
use zed_lib::policy::PublicTransitionDenied;

#[test]
fn refusal_texts() {
    assert_eq!(
        RegistryError::InvalidField(Field::StorageKey).message().as_deref(),
        Some("invalid storage key")
    );
    assert_eq!(
        RegistryError::InvalidChecksum.message().as_deref(),
        Some("SHA-256 checksum must be 64 lowercase hexadecimal characters")
    );
    assert_eq!(
        RegistryError::InvalidInvitation.message().as_deref(),
        Some("invitation is invalid, expired, already used, or belongs to another email")
    );
    assert_eq!(
        RegistryError::EmbeddingDimensions(1535).message().as_deref(),
        Some("embedding must contain 1536 dimensions, got 1535")
    );
    assert_eq!(
        RegistryError::EmbeddingDimensions(0).message().as_deref(),
        Some("embedding must contain 1536 dimensions, got 0")
    );
}

#[test]
fn read_only_refusal_quotes_the_setting() {
    assert_eq!(
        RegistryError::NotReadOnly("off".into()).message().as_deref(),
        Some(
            "connection is not read-only: default_transaction_read_only = \"off\" \
             (expected \"on\"; web tiers must connect with DbRole::ReadOnly)"
        )
    );
    let odd = "a\"b\n";
    assert_eq!(
        RegistryError::NotReadOnly(odd.into()).message(),
        Some(format!(
            "connection is not read-only: default_transaction_read_only = {odd:?} \
             (expected \"on\"; web tiers must connect with DbRole::ReadOnly)"
        ))
    );
}

#[test]
fn transition_refusal_texts() {
    assert_eq!(
        PublicTransitionDenied::InvalidDownloadCount(-1).message().as_deref(),
        Some("completed download count cannot be negative: -1")
    );
    assert_eq!(
        PublicTransitionDenied::MoreThanFiftyDownloads { completed_downloads: 51 }
            .message()
            .as_deref(),
        Some("package has more than fifty completed downloads: 51")
    );
    assert_eq!(
        PublicTransitionDenied::InvalidDownloadCount(i64::MIN).message(),
        Some(format!("completed download count cannot be negative: {}", i64::MIN))
    );
    assert_eq!(
        PublicTransitionDenied::OlderThanTenDays { age_nanos: 1 }.message(),
        None
    );
    assert_eq!(
        RegistryError::TransitionDenied(PublicTransitionDenied::MoreThanFiftyDownloads {
            completed_downloads: 1234567890
        })
        .message()
        .as_deref(),
        Some("package has more than fifty completed downloads: 1234567890")
    );
    assert_eq!(
        RegistryError::TransitionDenied(PublicTransitionDenied::OlderThanTenDays { age_nanos: 5 })
            .message(),
        None
    );
}

#[test]
fn lookup_refusal_texts() {
    assert_eq!(RegistryError::OrganizationNotFound.message().as_deref(), Some("organization not found"));
    assert_eq!(RegistryError::MembershipNotFound.message().as_deref(), Some("organization membership required"));
    assert_eq!(RegistryError::PackageNotFound.message().as_deref(), Some("package not found"));
    assert_eq!(RegistryError::UploadNotFound.message().as_deref(), Some("package upload not found"));
    assert_eq!(
        RegistryError::PackageDisappearedAfterUpdate.message().as_deref(),
        Some("package disappeared after visibility update")
    );
    assert_eq!(
        RegistryError::EmbeddingNotFinite.message().as_deref(),
        Some("embedding dimensions must all be finite")
    );
}
