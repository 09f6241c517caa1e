//! The random draws that the fault trigger makes.

use rand::rngs::ThreadRng;
use rand::seq::SliceRandom;
use rand::Rng;
use vstd::prelude::*;

verus! {

#[verifier::external_type_specification]
#[verifier::external_body]
pub struct ExThreadRng(rand::rngs::ThreadRng);

/// Trusted: rand's `Rng::gen_range` on the inclusive range `low..=high`.
/// The call panics on an empty range, which `requires` leaves out; whatever
/// is drawn lies in the range, and no more is claimed of it.
#[verifier::external_body]
pub(crate) fn random_byte(rng: &mut ThreadRng, low: u8, high: u8) -> (byte: u8)
    requires
        low <= high,
    ensures
        low <= byte <= high,
{
    rng.gen_range(low..=high)
}

/// Trusted: rand's `SliceRandom::choose` on a slice of bytes. It returns
/// `None` on an empty slice and one element of the slice otherwise; which
/// element is not claimed.
#[verifier::external_body]
pub(crate) fn choose_byte(rng: &mut ThreadRng, items: &Vec<u8>) -> (chosen: Option<u8>)
    ensures
        items@.len() == 0 ==> chosen is None,
        items@.len() > 0 ==> chosen is Some && items@.contains(chosen->Some_0),
{
    items.choose(rng).copied()
}

} // verus!
