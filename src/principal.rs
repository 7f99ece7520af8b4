use vstd::prelude::*;

verus! {

#[verifier::external_type_specification]
#[verifier::external_body]
pub struct ExPrincipal(candid::Principal);

/// Relies on the derived `Clone` of `candid::Principal`, a `Copy` type: the
/// clone is the same value. The derived `Clone` of the library's types that
/// hold a principal calls it.
pub assume_specification[ <candid::Principal as std::clone::Clone>::clone ](p: &candid::Principal) -> (r: candid::Principal)
    ensures
        r == *p,
;

/// Relies on the derived `PartialEq` of `candid::Principal`, which compares
/// its length and byte buffer: two principals are equal exactly when they are
/// the same value.
#[verifier::external_body]
pub(crate) fn same_principal(a: &candid::Principal, b: &candid::Principal) -> (r: bool)
    ensures
        r == (*a == *b),
{
    a == b
}

/// Relies on `candid::Principal::anonymous`, the principal of an
/// unauthenticated caller; nothing about its bytes is assumed here.
pub assume_specification[ candid::Principal::anonymous ]() -> candid::Principal;

} // verus!
