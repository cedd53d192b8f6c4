//! SQL value types that registry inputs carry through to the database unchanged.
//!
//! The library never looks inside these values; it only moves them.

use vstd::prelude::*;

verus! {

/// `sea_orm::prelude::Uuid` (the `uuid` crate's `Uuid`), an opaque identifier.
#[verifier::external_type_specification]
#[verifier::external_body]
pub struct ExUuid(sea_orm::prelude::Uuid);

/// `sea_orm::prelude::Json` (`serde_json::Value`), an opaque JSON document.
#[verifier::external_type_specification]
#[verifier::external_body]
pub struct ExJson(sea_orm::prelude::Json);

/// `Clone::clone` on `Uuid`: `Uuid` is `Copy`, and its clone is the same value.
pub assume_specification[ <sea_orm::prelude::Uuid as Clone>::clone ](
    uuid: &sea_orm::prelude::Uuid,
) -> (r: sea_orm::prelude::Uuid)
    ensures
        r == *uuid,
;

/// `Clone::clone` on `Json`: a deep copy; nothing about the copy is claimed here.
pub assume_specification[ <sea_orm::prelude::Json as Clone>::clone ](
    json: &sea_orm::prelude::Json,
) -> sea_orm::prelude::Json;

} // verus!
