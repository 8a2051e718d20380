//! The wall clock, through `chrono`.

use vstd::prelude::*;

verus! {

/// `chrono::NaiveDateTime`, carried through records as an opaque value.
#[verifier::external_type_specification]
#[verifier::external_body]
pub struct ExNaiveDateTime(chrono::NaiveDateTime);

/// `NaiveDateTime` is `Copy` and derives `Clone`: a clone is the same value.
pub assume_specification[ <chrono::NaiveDateTime as Clone>::clone ](
    dt: &chrono::NaiveDateTime,
) -> (r: chrono::NaiveDateTime)
    ensures
        r == *dt,
;

/// The current UTC time (`chrono::Utc::now().naive_utc()`).
///
/// Nothing is claimed of the value: it is read from the system clock.
#[verifier::external_body]
pub fn now_naive_utc() -> chrono::NaiveDateTime {
    chrono::Utc::now().naive_utc()
}

} // verus!
