//! Identifier synthesis: a pseudo-random request id drawn from the fixed
//! numeric band the upstream endpoint expects, seeded from the clock.

use crate::clock::current_seconds;
use rand::rngs::StdRng;
use rand::Rng;
use rand::SeedableRng;
use vstd::arithmetic::div_mod::lemma_mod_multiples_basic;
use vstd::prelude::*;

verus! {

#[verifier::external_type_specification]
#[verifier::external_body]
pub struct ExStdRng(StdRng);

/// Relies on rand's `SeedableRng::seed_from_u64` for `StdRng`: builds a
/// generator from a seed; nothing is assumed of its state.
#[verifier::external_body]
fn rng_from_seed(seed: u64) -> (r: StdRng) {
    StdRng::seed_from_u64(seed)
}

/// Relies on rand's `Rng::gen_range` on a half-open `i64` range: it panics
/// on an empty range and otherwise samples a value of the range.
#[verifier::external_body]
fn gen_range_i64(rng: &mut StdRng, lo: i64, hi: i64) -> (r: i64)
    requires
        lo < hi,
    ensures
        lo <= r < hi,
{
    rng.gen_range(lo..hi)
}

/// Synthesizes a request id: one draw from `[8_300_000, 8_399_998)`,
/// seeded from the clock's whole seconds, scaled by 1000 to the
/// granularity seen in genuine traffic.
pub fn random_number_id() -> (r: i64)
    ensures
        8_300_000_000 <= r < 8_399_998_000,
        r % 1000 == 0,
{
    let timestamp = current_seconds();
    let mut rng = rng_from_seed(timestamp);
    let num = gen_range_i64(&mut rng, 8_300_000, 8_399_998);
    proof {
        lemma_mod_multiples_basic(num as int, 1000);
    }
    num * 1000
}

} // verus!
