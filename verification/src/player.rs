use vstd::prelude::*;
use crate::deck::Card;

verus! {

/// What a coin balance becomes after a signed adjustment: the exact sum,
/// clamped to zero from below and to the machine maximum from above. A
/// balance is never negative.
pub open spec fn coin_adjust(coins: u64, delta: i64) -> u64 {
    if coins + delta < 0 {
        0u64
    } else if coins + delta > u64::MAX {
        u64::MAX
    } else {
        (coins + delta) as u64
    }
}

/// One seat: a stable identity, two role cards, and a coin balance.
pub struct Player {
    pub c1: Card,
    pub c2: Card,
    pub coins: u64,
    pub nick: String,
}

impl Player {
    /// Applies a signed delta to the coin balance, clamping at zero so the
    /// balance never goes negative. Cards and identity are untouched.
    pub fn adjust_coins(&mut self, adjustment: i64)
        ensures
            final(self).coins == coin_adjust(old(self).coins, adjustment),
            final(self).c1 == old(self).c1,
            final(self).c2 == old(self).c2,
            final(self).nick == old(self).nick,
    {
        if adjustment >= 0 {
            let gain: u64 = adjustment as u64;
            if self.coins <= u64::MAX - gain {
                self.coins = self.coins + gain;
            } else {
                self.coins = u64::MAX;
            }
        } else {
            let loss: u64 = (-(adjustment + 1)) as u64 + 1;
            if self.coins >= loss {
                self.coins = self.coins - loss;
            } else {
                self.coins = 0;
            }
        }
    }
}

} // verus!
