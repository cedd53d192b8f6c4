//! Transport-neutral registry decisions for API, web, CLI, and workers.
//!
//! Callers verify JWT/session material before constructing a federated
//! identity. These modules decide what the registry accepts; the data plane
//! performs the reads and writes those decisions call for.

pub mod artifacts;
pub mod flows;
pub mod packages;
pub mod search;
