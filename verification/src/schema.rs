//! The org's shared-schema namespace.

use vstd::prelude::*;
use crate::text::{contains_char, contains_whitespace, is_unicode_whitespace};

verus! {

/// The Postgres schema every shared table lives under.
pub const ORG_SCHEMA: &'static str = "zed_pkg";

/// A table name chosen by this org's code: non-empty, with no whitespace and
/// no quote character (`"`, `'` or `` ` ``).
pub open spec fn is_table_identifier(table: Seq<char>) -> bool {
    &&& table.len() > 0
    &&& forall|i: int| 0 <= i < table.len() ==> !is_unicode_whitespace(#[trigger] table[i])
    &&& !table.contains('"')
    &&& !table.contains('\'')
    &&& !table.contains('`')
}

/// Whether `table` is a table name that [`qualified`] accepts.
pub fn is_table_name(table: &str) -> (r: bool)
    ensures
        r == is_table_identifier(table@),
{
    !table.is_empty() && !contains_whitespace(table) && !contains_char(table, '"')
        && !contains_char(table, '\'') && !contains_char(table, '`')
}

/// Return `"<ORG_SCHEMA>.<table>"` for a bare table name.
///
/// A table name is an identifier chosen by this org's code, never runtime
/// input, so a bad one is a programming error: callers must pass a name that
/// [`is_table_name`] accepts.
pub fn qualified(table: &str) -> (r: String)
    requires
        is_table_identifier(table@),
    ensures
        r@ == ORG_SCHEMA@ + "."@ + table@,
        r@.subrange(0, ORG_SCHEMA@.len() as int) == ORG_SCHEMA@,
{
    let r = String::from_str(ORG_SCHEMA).concat(".").concat(table);
    assert(r@.subrange(0, ORG_SCHEMA@.len() as int) =~= ORG_SCHEMA@);
    r
}

} // verus!
