//! Trusted boundary to the `rand` crate: a declaration of its thread-local
//! generator type and a wrapper drawing one coordinate from a closed range.

use vstd::prelude::*;
use rand::Rng;

verus! {

#[verifier::external_type_specification]
#[verifier::external_body]
pub struct ExThreadRng(rand::rngs::ThreadRng);

/// Relies on rand::Rng::gen_range over an inclusive range: the sample lies
/// within the bounds; the call panics only on an empty range, which the
/// precondition rules out. Nothing more is assumed of the sample.
#[verifier::external_body]
pub(crate) fn rand_coord(rng: &mut rand::rngs::ThreadRng, lo: u8, hi: u8) -> (r: u8)
    requires
        lo <= hi,
    ensures
        lo <= r <= hi,
{
    rng.gen_range(lo..=hi)
}

} // verus!
