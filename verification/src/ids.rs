use vstd::prelude::*;

verus! {

/// Entity, player and lobby identifiers are `uuid::Uuid` values, carried
/// through the library without being looked into.
#[verifier::external_type_specification]
#[verifier::external_body]
pub struct ExUuid(uuid::Uuid);

/// `Uuid`'s `clone`: `Uuid` is `Copy`, and its derived `Clone` returns the
/// same sixteen bytes.
pub assume_specification[ <uuid::Uuid as Clone>::clone ](u: &uuid::Uuid) -> (c: uuid::Uuid)
    ensures
        c == *u,
;

/// `Uuid`'s `==` (derived in the `uuid` crate over its sixteen bytes): true
/// exactly when the two identifiers are the same value.
#[verifier::external_body]
pub(crate) fn uuid_eq(a: &uuid::Uuid, b: &uuid::Uuid) -> (same: bool)
    ensures
        same == (*a == *b),
{
    a == b
}

} // verus!
