//! The cart spawner: a repeating five-second countdown; each expiry puts
//! one new cart into the world.

use crate::timer::RepeatTimer;
use vstd::prelude::*;

verus! {

/// Time between cart spawns, in microseconds.
pub const CART_SPAWN_PERIOD_US: u64 = 5_000_000;

/// The process-wide spawner: nothing but its repeating countdown.
pub struct CartSpawner {
    pub timer: RepeatTimer,
}

impl CartSpawner {
    pub open spec fn wf(self) -> bool {
        self.timer.wf()
    }

    /// A fresh spawner with the standard period and an empty accumulator.
    pub fn new() -> (s: CartSpawner)
        ensures
            s.wf(),
            s.timer.period_us == CART_SPAWN_PERIOD_US,
            s.timer.elapsed_us == 0,
    {
        CartSpawner { timer: RepeatTimer::new(CART_SPAWN_PERIOD_US) }
    }

    /// Advance the countdown by one frame's delta; true exactly when it
    /// expired during this frame, which is when one cart is to be spawned.
    pub fn tick(&mut self, delta_us: u64) -> (spawn: bool)
        requires
            old(self).wf(),
            old(self).timer.elapsed_us + delta_us <= u64::MAX,
        ensures
            final(self).wf(),
            final(self).timer.period_us == old(self).timer.period_us,
            final(self).timer.elapsed_us == (old(self).timer.elapsed_us + delta_us) as int % old(
                self,
            ).timer.period_us as int,
            spawn <==> old(self).timer.elapsed_us + delta_us >= old(self).timer.period_us,
    {
        let fires = self.timer.tick(delta_us);
        proof {
            vstd::arithmetic::div_mod::lemma_div_pos_is_pos(
                old(self).timer.elapsed_us + delta_us,
                old(self).timer.period_us as int,
            );
            crate::timer::lemma_div_at_least_one(
                old(self).timer.elapsed_us + delta_us,
                old(self).timer.period_us as int,
            );
        }
        fires >= 1
    }
}

} // verus!
