//! Lengths cross the library's boundary as `app_units::Au`; inside, a length
//! is its whole number of app units (sixty to the pixel).

use vstd::prelude::*;
use app_units::Au;

verus! {

/// `app_units::Au`, a length in app units. A value is carried through as
/// it is: proofs see nothing inside one but its number of units, below.
#[verifier::external_type_specification]
#[verifier::external_body]
pub struct ExAu(Au);

/// The number of app units that an `Au` holds: its one field.
pub uninterp spec fn au_units(length: Au) -> int;

/// Reads the field of `app_units::Au`, a tuple struct over one public `i32`.
/// The contract claims that the number read is the number the value holds.
#[verifier::external_body]
pub(crate) fn units_of(length: Au) -> (units: i32)
    ensures
        units == au_units(length),
{
    length.0
}

/// Builds an `app_units::Au` by its tuple constructor, which stores the
/// number as it is (unlike `Au::new`, it does not clamp). The contract claims
/// that the value holds the number it was built from.
#[verifier::external_body]
pub(crate) fn au_of(units: i32) -> (length: Au)
    ensures
        au_units(length) == units,
{
    Au(units)
}

} // verus!
