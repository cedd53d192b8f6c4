use zed_lib::error::{Field, RegistryError};
use zed_lib::identity::{require_admin, require_writer, validate_identity, FederatedIdentity};
use zed_lib::models::SessionIdentity;

#[test]
fn shared_auth_adapter_keeps_the_deployed_issuer() {
    let identity = SessionIdentity {
        subject: "subject-1".into(),
        email: Some("user@example.test".into()),
        display_name: None,
        avatar_url: None,
    };
    let federated = FederatedIdentity::from_shared_auth(&identity);
    assert_eq!(federated.issuer, "shared-auth");
    assert_eq!(federated.subject, "subject-1");
    assert_eq!(federated.supabase_user_id, None);
}

#[test]
fn shared_auth_adapter_copies_profile_fields() {
    let identity = SessionIdentity {
        subject: "s".into(),
        email: Some("e@x".into()),
        display_name: Some("Name".into()),
        avatar_url: Some("https://a".into()),
    };
    let federated = FederatedIdentity::from_shared_auth(&identity);
    assert_eq!(federated.email.as_deref(), Some("e@x"));
    assert_eq!(federated.display_name.as_deref(), Some("Name"));
    assert_eq!(federated.avatar_url.as_deref(), Some("https://a"));
}

#[test]
fn role_checks_are_fail_closed() {
    assert!(require_admin("owner").is_ok());
    assert!(require_admin("member").is_err());
    assert!(require_writer("member").is_ok());
    assert!(require_writer("reader").is_err());
}

#[test]
fn every_admin_role_is_a_writer_role() {
    for role in ["owner", "admin", "member", "reader", "", "Owner", "admin "] {
        if require_admin(role).is_ok() {
            assert!(require_writer(role).is_ok());
        }
    }
    assert_eq!(require_admin("admin"), Ok(()));
    assert_eq!(require_admin("Owner"), Err(RegistryError::AdministratorRequired));
    assert_eq!(require_writer("owner"), Ok(()));
    assert_eq!(require_writer(""), Err(RegistryError::WriterRequired));
}

fn federated(issuer: &str, subject: &str) -> FederatedIdentity {
    FederatedIdentity {
        issuer: issuer.into(),
        subject: subject.into(),
        supabase_user_id: None,
        email: None,
        display_name: None,
        avatar_url: None,
    }
}

#[test]
fn identities_need_an_issuer_and_a_subject() {
    assert_eq!(validate_identity(&federated("shared-auth", "s")), Ok(()));
    assert_eq!(
        validate_identity(&federated("  ", "s")),
        Err(RegistryError::InvalidField(Field::AuthenticationIssuer))
    );
    assert_eq!(
        validate_identity(&federated(&"i".repeat(256), "s")),
        Err(RegistryError::InvalidField(Field::AuthenticationIssuer))
    );
    assert_eq!(validate_identity(&federated("i", &"s".repeat(1024))), Ok(()));
    assert_eq!(
        validate_identity(&federated("i", &"s".repeat(1025))),
        Err(RegistryError::InvalidField(Field::AuthenticationSubject))
    );
    assert_eq!(
        validate_identity(&federated("", "")),
        Err(RegistryError::InvalidField(Field::AuthenticationIssuer))
    );
}
