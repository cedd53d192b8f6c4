//! Registry domain policies that must agree across every transport.

use vstd::prelude::*;
use crate::text::{decimal, decimal_string};

verus! {

/// A private package may become public through the end of its tenth day:
/// ten days, in nanoseconds.
pub const MAX_PRIVATE_AGE_NANOS: u128 = 864_000_000_000_000u128;

/// A private package may become public while it has at most fifty completed
/// downloads. The fifty-first completed download closes the transition window.
pub const MAX_PRIVATE_DOWNLOADS: i64 = 50i64;

/// Why a private package may not become public.
#[derive(Clone, Copy, Debug, PartialEq, Eq, Structural)]
pub enum PublicTransitionDenied {
    /// The stored completed-download count is negative (corrupt data fails closed).
    InvalidDownloadCount(i64),
    /// The package is older than ten days; `age_nanos` is its age in nanoseconds.
    OlderThanTenDays { age_nanos: u128 },
    /// The package has more than fifty completed downloads.
    MoreThanFiftyDownloads { completed_downloads: i64 },
}

impl PublicTransitionDenied {
    /// The text reported for the refusal. The age refusal has none here: its
    /// text gives the age in seconds as a floating-point number.
    pub open spec fn spec_message(self) -> Option<Seq<char>> {
        match self {
            PublicTransitionDenied::InvalidDownloadCount(count) => Some(
                "completed download count cannot be negative: "@ + decimal(count as int),
            ),
            PublicTransitionDenied::OlderThanTenDays { .. } => None,
            PublicTransitionDenied::MoreThanFiftyDownloads { completed_downloads } => Some(
                "package has more than fifty completed downloads: "@ + decimal(
                    completed_downloads as int,
                ),
            ),
        }
    }

    /// The text reported for the refusal; `None` for the age refusal, whose
    /// text holds a floating-point number of seconds.
    pub fn message(&self) -> (r: Option<String>)
        ensures
            match (r, self.spec_message()) {
                (Some(m), Some(t)) => m@ == t,
                (None, None) => true,
                _ => false,
            },
    {
        match self {
            PublicTransitionDenied::InvalidDownloadCount(count) => Some(
                String::from_str("completed download count cannot be negative: ").concat(
                    decimal_string(*count as i128).as_str(),
                ),
            ),
            PublicTransitionDenied::OlderThanTenDays { .. } => None,
            PublicTransitionDenied::MoreThanFiftyDownloads { completed_downloads } => Some(
                String::from_str("package has more than fifty completed downloads: ").concat(
                    decimal_string(*completed_downloads as i128).as_str(),
                ),
            ),
        }
    }
}

/// The outcome of the private-to-public check for a package that is
/// `age_nanos` nanoseconds old and has `completed_downloads` completed downloads.
pub open spec fn spec_validate_private_to_public(
    age_nanos: u128,
    completed_downloads: i64,
) -> Result<(), PublicTransitionDenied> {
    if completed_downloads < 0 {
        Err(PublicTransitionDenied::InvalidDownloadCount(completed_downloads))
    } else if age_nanos > MAX_PRIVATE_AGE_NANOS {
        Err(PublicTransitionDenied::OlderThanTenDays { age_nanos })
    } else if completed_downloads > MAX_PRIVATE_DOWNLOADS {
        Err(PublicTransitionDenied::MoreThanFiftyDownloads { completed_downloads })
    } else {
        Ok(())
    }
}

/// Validate the one-way private-to-public transition.
///
/// Exact boundaries are allowed: an age of exactly ten days and exactly fifty
/// completed downloads both pass. A negative count is reported first, then an
/// excessive age, then an excessive count.
pub fn validate_private_to_public(age_nanos: u128, completed_downloads: i64) -> (r: Result<
    (),
    PublicTransitionDenied,
>)
    ensures
        r == spec_validate_private_to_public(age_nanos, completed_downloads),
        r is Ok <==> (0 <= completed_downloads <= MAX_PRIVATE_DOWNLOADS && age_nanos
            <= MAX_PRIVATE_AGE_NANOS),
{
    if completed_downloads < 0 {
        return Err(PublicTransitionDenied::InvalidDownloadCount(completed_downloads));
    }
    if age_nanos > MAX_PRIVATE_AGE_NANOS {
        return Err(PublicTransitionDenied::OlderThanTenDays { age_nanos });
    }
    if completed_downloads > MAX_PRIVATE_DOWNLOADS {
        return Err(PublicTransitionDenied::MoreThanFiftyDownloads { completed_downloads });
    }
    Ok(())
}

/// The transition window only narrows: a package that may become public may
/// also do so at any younger age and with any smaller (non-negative) number of
/// completed downloads.
pub proof fn lemma_transition_window_is_monotone(
    age_nanos: u128,
    completed_downloads: i64,
    younger_nanos: u128,
    fewer_downloads: i64,
)
    requires
        spec_validate_private_to_public(age_nanos, completed_downloads) is Ok,
        younger_nanos <= age_nanos,
        0 <= fewer_downloads <= completed_downloads,
    ensures
        spec_validate_private_to_public(younger_nanos, fewer_downloads) is Ok,
{
}

/// Both exact boundaries (ten days, fifty downloads) are inside the window, and
/// one nanosecond or one download beyond either is outside it.
pub proof fn lemma_transition_boundaries_are_inclusive()
    ensures
        spec_validate_private_to_public(MAX_PRIVATE_AGE_NANOS, MAX_PRIVATE_DOWNLOADS) is Ok,
        spec_validate_private_to_public((MAX_PRIVATE_AGE_NANOS + 1) as u128, 0) is Err,
        spec_validate_private_to_public(0, (MAX_PRIVATE_DOWNLOADS + 1) as i64) is Err,
{
}

} // verus!
