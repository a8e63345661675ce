//! Timestamp alignment: the outbound timestamp is rounded to a text-derived
//! modulus, and the modulus count itself starts from a provisional
//! timestamp rather than from zero.

use crate::clock::{current_millis, MILLIS_CLOCK_BOUND};
use vstd::arithmetic::div_mod::{
    lemma_fundamental_div_mod, lemma_mod_decreases, lemma_mod_multiples_basic,
};
use vstd::prelude::*;
use vstd::string::StrSliceExecFns;
use vstd::string::StringSliceAdditionalSpecFns;

verus! {

/// How a raw millisecond timestamp is aligned to a count: a zero count
/// leaves it unchanged; otherwise it is floored to a multiple of
/// `count + 1` and that modulus is added once more.
pub open spec fn spec_aligned_timestamp(raw: int, count: int) -> int {
    if count == 0 {
        raw
    } else {
        raw - raw % (count + 1) + (count + 1)
    }
}

/// Law: with a nonzero count the aligned timestamp is a positive multiple
/// of `count + 1` strictly greater than the raw timestamp; with a zero
/// count it equals the raw timestamp exactly.
pub proof fn lemma_alignment_bounds(raw: int, count: int)
    requires
        0 <= raw,
        0 <= count,
    ensures
        count == 0 ==> spec_aligned_timestamp(raw, count) == raw,
        count != 0 ==> spec_aligned_timestamp(raw, count) > raw,
        count != 0 ==> spec_aligned_timestamp(raw, count) % (count + 1) == 0,
{
    if count != 0 {
        let m = count + 1;
        lemma_fundamental_div_mod(raw, m);
        assert(raw - raw % m == (raw / m) * m) by (nonlinear_arith)
            requires
                raw == m * (raw / m) + raw % m,
        ;
        lemma_mod_multiples_basic(raw / m, m);
        assert(spec_aligned_timestamp(raw, count) == (raw / m) * m + m);
        assert((raw / m) * m + m == (raw / m + 1) * m) by (nonlinear_arith);
        lemma_mod_multiples_basic(raw / m + 1, m);
    }
}

/// Aligns a raw millisecond timestamp to a count.
pub fn align_timestamp(raw: u128, i_count: u128) -> (r: u128)
    requires
        raw + i_count + 1 <= u128::MAX,
    ensures
        r == spec_aligned_timestamp(raw as int, i_count as int),
        i_count == 0 ==> r == raw,
        i_count != 0 ==> r > raw && (r as int) % (i_count as int + 1) == 0 && r >= i_count + 1,
{
    if i_count != 0 {
        let m = i_count + 1;
        let rem = raw % m;
        proof {
            lemma_mod_decreases(raw as nat, m as nat);
            lemma_alignment_bounds(raw as int, i_count as int);
        }
        raw - rem + m
    } else {
        raw
    }
}

/// Milliseconds now, aligned to the count: the result of
/// `spec_aligned_timestamp` for some clock reading below the clock bound.
pub fn timestamp_for_i_count(i_count: u128) -> (r: u128)
    requires
        i_count + MILLIS_CLOCK_BOUND <= u128::MAX,
    ensures
        exists|raw: u128|
            raw < MILLIS_CLOCK_BOUND && r == spec_aligned_timestamp(raw as int, i_count as int),
        r < MILLIS_CLOCK_BOUND + i_count + 1,
        i_count != 0 ==> (r as int) % (i_count as int + 1) == 0 && r >= i_count + 1,
{
    let timestamp = current_millis();
    let r = align_timestamp(timestamp, i_count);
    proof {
        assert(timestamp < MILLIS_CLOCK_BOUND && r == spec_aligned_timestamp(
            timestamp as int,
            i_count as int,
        ));
    }
    r
}

/// How many line-feed bytes (0x0A) a byte sequence holds.
pub open spec fn spec_lf_count(bytes: Seq<u8>) -> nat
    decreases bytes.len(),
{
    if bytes.len() == 0 {
        0
    } else {
        spec_lf_count(bytes.drop_last()) + if bytes.last() == 10 {
            1nat
        } else {
            0nat
        }
    }
}

pub proof fn lemma_lf_count_le_len(bytes: Seq<u8>)
    ensures
        spec_lf_count(bytes) <= bytes.len(),
    decreases bytes.len(),
{
    if bytes.len() > 0 {
        lemma_lf_count_le_len(bytes.drop_last());
    }
}

/// The alignment count for a text: the initial accumulator (in the main
/// flow, a provisional timestamp), incremented once for every line-feed
/// byte of the text's byte representation.
pub fn alignment_count(text: &str, init: u128) -> (r: u128)
    requires
        init + usize::MAX <= u128::MAX,
    ensures
        r == init + spec_lf_count(text.spec_bytes()),
        text.spec_bytes().len() <= usize::MAX,
{
    let bytes = text.as_bytes_vec();
    let n = bytes.len();
    let mut count = init;
    let mut i: usize = 0;
    proof {
        assert(bytes@.subrange(0, 0) =~= Seq::<u8>::empty());
    }
    while i < n
        invariant
            i <= n,
            n == bytes@.len(),
            bytes@ == text.spec_bytes(),
            init + usize::MAX <= u128::MAX,
            count == init + spec_lf_count(bytes@.subrange(0, i as int)),
        decreases n - i,
    {
        proof {
            lemma_lf_count_le_len(bytes@.subrange(0, i as int));
            assert(bytes@.subrange(0, i as int + 1).drop_last() =~= bytes@.subrange(0, i as int));
            assert(bytes@.subrange(0, i as int + 1).last() == bytes@[i as int]);
        }
        if bytes[i] == 10 {
            count = count + 1;
        }
        i = i + 1;
    }
    proof {
        assert(bytes@.subrange(0, bytes@.len() as int) =~= bytes@);
    }
    count
}

} // verus!
