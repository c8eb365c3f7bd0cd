use vstd::prelude::*;
use vstd::arithmetic::div_mod::{
    lemma_add_mod_noop, lemma_mod_add_multiples_vanish, lemma_mod_bound, lemma_small_mod,
};
use crate::game::turn_after;
use crate::player::coin_adjust;

verus! {

/// The seat the turn pointer reaches after `k` advances from seat `t` among
/// `n` seats.
pub open spec fn turn_after_k(t: int, n: int, k: nat) -> int
    decreases k,
{
    if k == 0 {
        t
    } else {
        turn_after(turn_after_k(t, n, (k - 1) as nat), n)
    }
}

/// One advance from a valid seat lands on a valid seat, and on exactly the
/// next one: the seat after `t` is `t + 1`, except from the last seat, which
/// wraps to seat zero.
pub proof fn lemma_turn_stays_valid(t: int, n: int)
    requires
        0 <= t < n,
    ensures
        0 <= turn_after(t, n) < n,
        t < n - 1 ==> turn_after(t, n) == t + 1,
        t == n - 1 ==> turn_after(t, n) == 0,
{
    lemma_mod_bound(t + 1, n);
    if t < n - 1 {
        lemma_small_mod((t + 1) as nat, n as nat);
    }
    if t == n - 1 {
        lemma_mod_add_multiples_vanish(0, n);
        lemma_small_mod(0nat, n as nat);
    }
}

/// Advancing the turn `k` times from seat `t` lands on seat `(t + k) % n`:
/// with three seats the turn visits 0, 1, 2, 0, 1, 2, ..., one seat per
/// resolved round.
pub proof fn lemma_turn_cycles(t: int, n: int, k: nat)
    requires
        0 <= t < n,
    ensures
        turn_after_k(t, n, k) == (t + k) % n,
    decreases k,
{
    if k == 0 {
        lemma_small_mod(t as nat, n as nat);
    } else {
        lemma_turn_cycles(t, n, (k - 1) as nat);
        lemma_add_mod_noop(t + k - 1, 1, n);
        if n == 1 {
            lemma_mod_bound(t + k - 1, 1);
            lemma_mod_bound(t + k, 1);
            lemma_mod_bound((t + k - 1) % 1 + 1, 1);
        } else {
            lemma_small_mod(1nat, n as nat);
        }
    }
}

/// A full loop of advances — as many as there are seats — returns the turn
/// pointer to the seat it started from.
pub proof fn lemma_turn_full_cycle(t: int, n: int)
    requires
        0 <= t < n,
    ensures
        turn_after_k(t, n, n as nat) == t,
{
    lemma_turn_cycles(t, n, n as nat);
    lemma_mod_add_multiples_vanish(t, n);
    lemma_small_mod(t as nat, n as nat);
}

/// A coin balance is never negative, whatever sequence of adjustments is
/// applied: each adjustment lands in range, is the exact sum where that sum
/// fits, and is exactly zero where the sum would fall below zero.
pub proof fn lemma_coins_clamped(coins: u64, delta: i64)
    ensures
        coin_adjust(coins, delta) >= 0,
        coins + delta < 0 ==> coin_adjust(coins, delta) == 0,
        0 <= coins + delta <= u64::MAX ==> coin_adjust(coins, delta) == coins + delta,
{
}

} // verus!
