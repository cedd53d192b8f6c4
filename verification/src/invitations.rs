//! Checks for one-time organization and project invitation acceptance.
//!
//! Every refusal that could reveal whether an invitation exists is reported
//! as the same [`RegistryError::InvalidInvitation`].

use vstd::prelude::*;
use crate::error::RegistryError;
use crate::models::SessionIdentity;
use vstd::utf8::is_ascii_chars;
use crate::text::{
    ascii_lower_byte, ascii_lower_char, ascii_lowercase,
    ByteClass, all_bytes_in, byte_len, bytes_all_in, eq_ignore_ascii_case,
    eq_ignore_ascii_case_spec, spec_trim, to_lowercase, trim, unicode_lowercase,
};

verus! {

/// Shortest accepted invitation token, in bytes.
pub const MIN_TOKEN_BYTES: usize = 32usize;

/// Longest accepted invitation token, in bytes.
pub const MAX_TOKEN_BYTES: usize = 256usize;

/// A presented invitation token: 32 to 256 URL-safe bytes.
pub open spec fn is_token_shape(token: Seq<char>) -> bool {
    &&& MIN_TOKEN_BYTES <= byte_len(token) <= MAX_TOKEN_BYTES
    &&& all_bytes_in(token, ByteClass::UrlSafeToken)
}

/// Accept a token of 32 to 256 bytes, each an ASCII letter, digit, `-` or `_`.
pub fn validate_token(token: &str) -> (r: Result<(), RegistryError>)
    ensures
        r == (if is_token_shape(token@) {
            Ok(())
        } else {
            Err(RegistryError::InvalidInvitation)
        }),
{
    let len = token.as_bytes().len();
    if MIN_TOKEN_BYTES <= len && len <= MAX_TOKEN_BYTES && bytes_all_in(
        token,
        ByteClass::UrlSafeToken,
    ) {
        Ok(())
    } else {
        Err(RegistryError::InvalidInvitation)
    }
}

/// The email an identity accepts invitations with: its verified email,
/// trimmed and lower-cased, when that is not blank.
pub open spec fn spec_normalized_identity_email(email: Option<Seq<char>>) -> Result<
    Seq<char>,
    RegistryError,
> {
    match email {
        Some(e) if spec_trim(e).len() > 0 => Ok(unicode_lowercase(spec_trim(e))),
        _ => Err(RegistryError::VerifiedEmailRequired),
    }
}

/// The view of an optional string.
pub open spec fn optional_view(s: Option<String>) -> Option<Seq<char>> {
    match s {
        Some(t) => Some(t@),
        None => None,
    }
}

/// The identity's verified email, trimmed and lower-cased; refused when the
/// identity has none or it is blank.
pub fn normalized_identity_email(identity: &SessionIdentity) -> (r: Result<String, RegistryError>)
    ensures
        match (r, spec_normalized_identity_email(optional_view(identity.email))) {
            (Ok(s), Ok(t)) => s@ == t,
            (Err(e), Err(f)) => e == f,
            _ => false,
        },
        identity.email matches Some(e) ==> (spec_trim(e@).len() > 0 && is_ascii_chars(
            spec_trim(e@),
        ) ==> (r matches Ok(s) && s@ == ascii_lowercase(spec_trim(e@)))),
{
    match &identity.email {
        Some(email) => {
            let trimmed = trim(email.as_str());
            if trimmed.is_empty() {
                Err(RegistryError::VerifiedEmailRequired)
            } else {
                Ok(to_lowercase(trimmed))
            }
        },
        None => Err(RegistryError::VerifiedEmailRequired),
    }
}

/// Whether an invitation addressed to `invited_email` belongs to the holder of
/// `verified_email`: the trimmed invited email equals the verified one up to
/// ASCII case.
pub open spec fn emails_match(invited_email: Seq<char>, verified_email: Seq<char>) -> bool {
    eq_ignore_ascii_case_spec(spec_trim(invited_email), verified_email)
}

/// Accept when the invitation's email matches the verified email
/// case-insensitively (ASCII); refuse with the generic invitation error.
pub fn require_matching_email(invited_email: &str, verified_email: &str) -> (r: Result<
    (),
    RegistryError,
>)
    ensures
        r == (if emails_match(invited_email@, verified_email@) {
            Ok(())
        } else {
            Err(RegistryError::InvalidInvitation)
        }),
{
    if eq_ignore_ascii_case(trim(invited_email), verified_email) {
        Ok(())
    } else {
        Err(RegistryError::InvalidInvitation)
    }
}

/// An invitation addressed to the identity's own (ASCII) email is accepted,
/// whatever the ASCII case and surrounding whitespace of either address:
/// `normalized` is what [`normalized_identity_email`] returns for `verified`.
pub proof fn lemma_own_email_matches(invited: Seq<char>, verified: Seq<char>, normalized: Seq<char>)
    requires
        is_ascii_chars(spec_trim(invited)),
        is_ascii_chars(spec_trim(verified)),
        normalized == ascii_lowercase(spec_trim(verified)),
        ascii_lowercase(spec_trim(invited)) == ascii_lowercase(spec_trim(verified)),
    ensures
        emails_match(invited, normalized),
{
    let a = spec_trim(invited);
    let b = normalized;
    assert(b.len() == a.len()) by {
        assert(ascii_lowercase(a).len() == a.len());
    }
    assert forall|i: int| 0 <= i < b.len() implies '\0' <= #[trigger] b[i] <= '\u{7f}' by {
        assert(b[i] == ascii_lowercase(a)[i]);
        assert(b[i] == ascii_lower_char(a[i]));
    }
    vstd::utf8::is_ascii_chars_encode_utf8(a);
    vstd::utf8::is_ascii_chars_encode_utf8(b);
    let x = vstd::utf8::encode_utf8(a);
    let y = vstd::utf8::encode_utf8(b);
    assert forall|i: int| 0 <= i < x.len() implies ascii_lower_byte(x[i]) == ascii_lower_byte(
        y[i],
    ) by {
        assert(b[i] == ascii_lowercase(a)[i]);
        assert(b[i] == ascii_lower_char(a[i]));
        assert(x[i] == a[i] as u8);
        assert(y[i] == b[i] as u8);
        let u = a[i] as u32;
        vstd::utf8::char_u32_cast(a[i], u);
        if 'A' <= a[i] <= 'Z' {
            let v = (u + 0x20) as u32;
            assert(b[i] == v as char);
            assert((v as char) as u32 == v);
            assert((b[i] as u8) == (v as u8));
            assert(ascii_lower_byte(u as u8) == (v as u8)) by (bit_vector)
                requires
                    0x41 <= u <= 0x5A,
                    v == u + 0x20,
            ;
            assert(ascii_lower_byte(v as u8) == (v as u8)) by (bit_vector)
                requires
                    0x61 <= v <= 0x7A,
            ;
        }
    }
}

/// What a live invitation grants membership of.
#[derive(Clone, Copy, Debug, PartialEq, Eq, Structural)]
pub enum InvitationKind {
    Organization,
    Project,
}

impl InvitationKind {
    /// The table that holds invitations of this kind.
    pub open spec fn spec_table(self) -> Seq<char> {
        match self {
            InvitationKind::Organization => "org_invitations"@,
            InvitationKind::Project => "project_invitations"@,
        }
    }

    /// The table that holds invitations of this kind.
    pub fn table(&self) -> (r: &'static str)
        ensures
            r@ == self.spec_table(),
    {
        match self {
            InvitationKind::Organization => "org_invitations",
            InvitationKind::Project => "project_invitations",
        }
    }
}

/// Decide which invitation a token names, given whether a live organization
/// invitation and a live project invitation carry its hash: exactly one must.
pub fn select_invitation(org_found: bool, project_found: bool) -> (r: Result<
    InvitationKind,
    RegistryError,
>)
    ensures
        r == (if org_found && project_found {
            Err(RegistryError::AmbiguousInvitation)
        } else if org_found {
            Ok(InvitationKind::Organization)
        } else if project_found {
            Ok(InvitationKind::Project)
        } else {
            Err(RegistryError::InvalidInvitation)
        }),
{
    if org_found && project_found {
        Err(RegistryError::AmbiguousInvitation)
    } else if org_found {
        Ok(InvitationKind::Organization)
    } else if project_found {
        Ok(InvitationKind::Project)
    } else {
        Err(RegistryError::InvalidInvitation)
    }
}

/// The statement that consumes one live invitation of `kind`: it marks the
/// invitation accepted at `$1` only if it has id `$2`, is unaccepted and
/// unexpired.
pub open spec fn spec_consume_once_sql(kind: InvitationKind) -> Seq<char> {
    "UPDATE "@ + kind.spec_table()
        + " SET accepted_at = $1 WHERE id = $2 AND accepted_at IS NULL AND expires_at > $1"@
}

/// The statement that consumes one live invitation of `kind`.
pub fn consume_once_sql(kind: InvitationKind) -> (r: String)
    ensures
        r@ == spec_consume_once_sql(kind),
{
    String::from_str("UPDATE ").concat(kind.table()).concat(
        " SET accepted_at = $1 WHERE id = $2 AND accepted_at IS NULL AND expires_at > $1",
    )
}

/// Accept a consumption that updated exactly one invitation row; any other
/// count means the invitation was already used, expired, or raced.
pub fn require_single_use(rows_affected: u64) -> (r: Result<(), RegistryError>)
    ensures
        r == (if rows_affected == 1 {
            Ok(())
        } else {
            Err(RegistryError::InvalidInvitation)
        }),
{
    if rows_affected == 1 {
        Ok(())
    } else {
        Err(RegistryError::InvalidInvitation)
    }
}

} // verus!
