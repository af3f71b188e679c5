use vstd::prelude::*;

verus! {

/// The `uuid::Uuid` identifiers that user records carry. Nothing is read
/// from inside one here; they are carried through as they are.
#[verifier::external_type_specification]
#[verifier::external_body]
pub struct ExUuid(uuid::Uuid);

/// `Clone` for `uuid::Uuid`, which derives it on a `Copy` type: the clone is
/// the value itself. The derived `Clone` of the user records calls it.
pub assume_specification[ <uuid::Uuid as Clone>::clone ](u: &uuid::Uuid) -> (r: uuid::Uuid)
    ensures
        r == *u,
;

} // verus!
