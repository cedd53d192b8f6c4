use zed_lib::error::RegistryError;
use zed_lib::invitations::{
    consume_once_sql, normalized_identity_email, require_matching_email, require_single_use,
    select_invitation, validate_token, InvitationKind,
};
use zed_lib::models::SessionIdentity;

fn identity_with_email(email: Option<&str>) -> SessionIdentity {
    SessionIdentity {
        subject: "subject".into(),
        email: email.map(|e| e.to_string()),
        display_name: None,
        avatar_url: None,
    }
}

#[test]
fn token_shape_is_bounded_and_url_safe() {
    assert!(validate_token(&"a".repeat(64)).is_ok());
    assert!(validate_token(&"a".repeat(31)).is_err());
    assert!(validate_token(&"a".repeat(257)).is_err());
    assert!(validate_token(&format!("{}+", "a".repeat(63))).is_err());
}

#[test]
fn token_boundaries_and_alphabet() {
    assert_eq!(validate_token(&"a".repeat(32)), Ok(()));
    assert_eq!(validate_token(&"Z".repeat(256)), Ok(()));
    assert_eq!(validate_token(&format!("{}-_9", "x".repeat(40))), Ok(()));
    assert_eq!(validate_token(&"é".repeat(20)), Err(RegistryError::InvalidInvitation));
    assert_eq!(validate_token(&"a.".repeat(20)), Err(RegistryError::InvalidInvitation));
}

#[test]
fn invitation_email_matches_case_insensitively() {
    assert!(require_matching_email("User@Example.COM", "user@example.com").is_ok());
    assert!(require_matching_email("other@example.com", "user@example.com").is_err());
}

#[test]
fn invited_email_is_trimmed_and_ascii_case_folded_only() {
    assert_eq!(require_matching_email("  USER@example.com\t", "user@example.com"), Ok(()));
    assert_eq!(
        require_matching_email("user@example.com", " user@example.com"),
        Err(RegistryError::InvalidInvitation)
    );
    assert_eq!(
        require_matching_email("ÉCOLE@example.com", "école@example.com"),
        Err(RegistryError::InvalidInvitation)
    );
}

#[test]
fn verified_email_is_required() {
    let identity = SessionIdentity {
        subject: "subject".into(),
        email: None,
        display_name: None,
        avatar_url: None,
    };
    assert!(normalized_identity_email(&identity).is_err());
}

#[test]
fn verified_email_is_trimmed_and_lowercased() {
    assert_eq!(
        normalized_identity_email(&identity_with_email(Some("  User@Example.COM \n"))),
        Ok("user@example.com".to_string())
    );
    assert_eq!(
        normalized_identity_email(&identity_with_email(Some("ÉCOLE@X.FR"))),
        Ok("école@x.fr".to_string())
    );
    assert_eq!(
        normalized_identity_email(&identity_with_email(Some(" \u{3000}\t"))),
        Err(RegistryError::VerifiedEmailRequired)
    );
}

#[test]
fn exactly_one_live_invitation_is_required() {
    assert_eq!(select_invitation(true, false), Ok(InvitationKind::Organization));
    assert_eq!(select_invitation(false, true), Ok(InvitationKind::Project));
    assert_eq!(select_invitation(false, false), Err(RegistryError::InvalidInvitation));
    assert_eq!(select_invitation(true, true), Err(RegistryError::AmbiguousInvitation));
}

#[test]
fn invitations_are_consumed_exactly_once() {
    assert_eq!(require_single_use(1), Ok(()));
    assert_eq!(require_single_use(0), Err(RegistryError::InvalidInvitation));
    assert_eq!(require_single_use(2), Err(RegistryError::InvalidInvitation));
    assert_eq!(
        consume_once_sql(InvitationKind::Organization),
        "UPDATE org_invitations SET accepted_at = $1 WHERE id = $2 AND accepted_at IS NULL AND expires_at > $1"
    );
    assert_eq!(
        consume_once_sql(InvitationKind::Project),
        "UPDATE project_invitations SET accepted_at = $1 WHERE id = $2 AND accepted_at IS NULL AND expires_at > $1"
    );
}
