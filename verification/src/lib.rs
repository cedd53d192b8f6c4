//! Verified core of the `zed-pkg` registry data plane.
//!
//! The registry's rules (input validation, role checks, the private-to-public
//! visibility policy, invitation checks, connection-role URLs and the SQL text
//! that the data plane sends) are stated here as contracts and proved.

pub mod connect;
pub mod error;
pub mod identity;
pub mod invitations;
pub mod migration;
pub mod models;
pub mod policy;
pub mod registry;
pub mod schema;
pub mod sql;
pub mod sql_types;
pub mod text;
pub mod validation;
