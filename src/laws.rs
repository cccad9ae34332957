use vstd::prelude::*;

verus! {

use crate::counter::{wrapping_succ, COUNTER_MODULUS};

/// The value reached from `v` by `n` increments in a row.
pub open spec fn succ_iter(v: u32, n: nat) -> u32
    decreases n,
{
    if n == 0 {
        v
    } else {
        wrapping_succ(succ_iter(v, (n - 1) as nat))
    }
}

/// One increment adds one below the largest value, and turns the largest
/// value into 0.
pub proof fn lemma_increment_step(v: u32)
    ensures
        v < u32::MAX ==> wrapping_succ(v) == v + 1,
        v == u32::MAX ==> wrapping_succ(v) == 0,
{
}

/// `n` increments from `v` give `(v + n) mod 2^32`, wrapping through 0 as
/// often as needed.
pub proof fn lemma_increments_wrap(v: u32, n: nat)
    ensures
        succ_iter(v, n) == (v + n) % (COUNTER_MODULUS as int),
    decreases n,
{
    let m = COUNTER_MODULUS as int;
    if n > 0 {
        lemma_increments_wrap(v, (n - 1) as nat);
        vstd::arithmetic::div_mod::lemma_add_mod_noop(v + n - 1, 1, m);
        vstd::arithmetic::div_mod::lemma_small_mod(1, m as nat);
    } else {
        vstd::arithmetic::div_mod::lemma_small_mod(v as nat, m as nat);
    }
}

/// From 0, `n` increments with `n < 2^32` give `n`.
pub proof fn lemma_increments_from_zero(n: nat)
    requires
        n < COUNTER_MODULUS,
    ensures
        succ_iter(0, n) == n,
{
    lemma_increments_wrap(0, n);
    vstd::arithmetic::div_mod::lemma_small_mod(n, COUNTER_MODULUS as nat);
}

} // verus!
