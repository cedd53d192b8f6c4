//! Role-aware connection URLs for the shared `zed_pkg` schema.

use vstd::prelude::*;
use crate::error::RegistryError;
use crate::text::{contains_char, str_eq};

verus! {

/// The role a service connects with.
///
/// - [`DbRole::ReadWrite`]: the API server, the sole writer of the shared schema.
/// - [`DbRole::ReadOnly`]: web tiers; every transaction on the pool is read-only
///   unless a session explicitly overrides it.
#[derive(Debug, Clone, Copy, PartialEq, Eq, Structural)]
pub enum DbRole {
    ReadWrite,
    ReadOnly,
}

/// Percent-encoded form of `-c default_transaction_read_only=on`.
pub const READ_ONLY_OPTIONS: &'static str = "options=-c%20default_transaction_read_only%3Don";

/// The separator placed between a URL and an appended query parameter.
pub open spec fn query_separator(url: Seq<char>) -> Seq<char> {
    if url.contains('?') { "&"@ } else { "?"@ }
}

/// The URL that a connection with `role` uses.
pub open spec fn spec_apply_role(url: Seq<char>, role: DbRole) -> Seq<char> {
    match role {
        DbRole::ReadWrite => url,
        DbRole::ReadOnly => url + query_separator(url) + READ_ONLY_OPTIONS@,
    }
}

/// Apply `role` to `database_url`: the read-write role passes the URL through,
/// the read-only role appends the read-only startup option, after `&` when the
/// URL already has a query string and after `?` otherwise.
pub fn apply_role(database_url: &str, role: DbRole) -> (url: String)
    ensures
        url@ == spec_apply_role(database_url@, role),
        url@.subrange(0, database_url@.len() as int) == database_url@,
{
    match role {
        DbRole::ReadWrite => database_url.to_owned(),
        DbRole::ReadOnly => {
            let separator = if contains_char(database_url, '?') { "&" } else { "?" };
            let url = String::from_str(database_url).concat(separator).concat(READ_ONLY_OPTIONS);
            assert(url@.subrange(0, database_url@.len() as int) =~= database_url@);
            url
        },
    }
}

/// Accept a connection whose `default_transaction_read_only` setting is `on`;
/// otherwise report the setting it has, so that a misconfigured URL fails at
/// startup instead of leaving a latent write path.
pub fn require_read_only_setting(setting: &str) -> (r: Result<(), RegistryError>)
    ensures
        setting@ == "on"@ ==> r is Ok,
        setting@ != "on"@ ==> (r matches Err(RegistryError::NotReadOnly(s)) && s@ == setting@),
{
    if str_eq(setting, "on") {
        Ok(())
    } else {
        Err(RegistryError::NotReadOnly(setting.to_owned()))
    }
}

} // verus!
