//! Trusted declarations for the field-element type of the `cairo-felt` crate.
//!
//! The integer variant of a memory cell is an arbitrary-precision field
//! element. Its arithmetic is outside this library's scope: values are only
//! stored, cloned and (at the resolver's secondary-offset step) narrowed to a
//! machine integer, so the type is declared opaquely and the few operations
//! the library calls are taken on trust from the crate's source.

use cairo_felt::Felt252;
use num_traits::ToPrimitive;
use vstd::prelude::*;

verus! {

/// The field-element type of the `cairo-felt` crate, kept opaque: the library
/// never inspects its numeric value, it only moves whole values around.
#[verifier::external_type_specification]
#[verifier::external_body]
pub struct ExFelt252(Felt252);

/// Relies on `cairo_felt::Felt252`'s derived `Clone`: a field-for-field copy
/// of a value whose representation is kept canonical, so the clone equals the
/// original.
pub assume_specification[ <Felt252 as Clone>::clone ](v: &Felt252) -> (r: Felt252)
    ensures
        r == *v,
;

/// Relies on `<Felt252 as num_traits::ToPrimitive>::to_usize`: the narrowing
/// of a field element to a machine integer. Whether and how it succeeds
/// depends on the opaque numeric value, so nothing is stated of the result;
/// callers must hold for every outcome.
#[verifier::external_body]
pub(crate) fn felt_to_usize(f: &Felt252) -> Option<usize> {
    f.to_usize()
}

} // verus!
