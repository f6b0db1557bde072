//! What the library takes from the machine it runs on: the time of day and a random number.

use vstd::prelude::*;

verus! {

/// Calls `chrono::Local::now` and formats the result with `DateTime::to_rfc3339`.
/// Nothing is promised of the text: it depends on the clock and the time zone.
#[verifier::external_body]
pub(crate) fn local_timestamp() -> (stamp: String) {
    chrono::Local::now().to_rfc3339()
}

/// Calls `rand::random` for a `u32` and writes it in decimal. Which number it is
/// depends on chance; whichever it is, it is written with one to ten decimal digits.
#[verifier::external_body]
pub(crate) fn random_name() -> (name: String)
    ensures
        1 <= name@.len() <= 10,
        forall|i: int| 0 <= i < name@.len() ==> '0' <= #[trigger] name@[i] <= '9',
{
    rand::random::<u32>().to_string()
}

} // verus!
