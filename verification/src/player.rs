//! The player's hose: each frame it tracks the pointer's x coordinate and,
//! while the button is held, sprays one fish per elapsed cooldown period,
//! placing shots through a four-entry round-robin of nozzle offsets.

use crate::timer::RepeatTimer;
use vstd::prelude::*;

verus! {

/// Cooldown between shots, in microseconds.
pub const HOSE_PERIOD_US: u64 = 40_000;

/// Number of nozzle offsets in the round-robin.
pub const OFFSET_COUNT: usize = 4;

/// A fish leaves the nozzle this far below the player, in thousandths of a
/// world unit.
pub const FISH_DROP_Y_MILLI: i64 = -28_000;

/// The nozzle offset table, in thousandths of a world unit.
pub open spec fn spec_offset(i: int) -> int {
    if i == 0 {
        -30_000
    } else if i == 1 {
        -10_000
    } else if i == 2 {
        10_000
    } else {
        30_000
    }
}

/// The offset used by the k-th shot of a fresh player: the round-robin
/// starts by advancing, so shot 0 uses the table's second entry.
pub open spec fn spec_shot_offset(k: int) -> int {
    spec_offset((k + 1) % 4)
}

/// The offsets cycle through the four table values in order, wrapping
/// after the fourth: the sequence of shots is periodic with period four.
pub proof fn lemma_offsets_round_robin(k: int)
    requires
        k >= 0,
    ensures
        spec_shot_offset(k + 4) == spec_shot_offset(k),
        k % 4 == 0 ==> spec_shot_offset(k) == -10_000,
        k % 4 == 1 ==> spec_shot_offset(k) == 10_000,
        k % 4 == 2 ==> spec_shot_offset(k) == 30_000,
        k % 4 == 3 ==> spec_shot_offset(k) == -30_000,
{
    vstd::arithmetic::div_mod::lemma_mod_multiples_vanish(1, k + 1, 4);
    vstd::arithmetic::div_mod::lemma_fundamental_div_mod(k, 4);
    vstd::arithmetic::div_mod::lemma_mod_multiples_vanish(k / 4, (k % 4) + 1, 4);
}

/// The player's spray state: the shot cooldown and the position in the
/// nozzle offset round-robin.
pub struct Player {
    pub hose_timer: RepeatTimer,
    pub offset_index: usize,
}

/// One fish to be spawned, at this position in thousandths of a world unit.
#[derive(Clone, Copy, Debug, PartialEq, Eq, Structural)]
pub struct FishSpawn {
    pub x_milli: i64,
    pub y_milli: i64,
}

impl Player {
    pub open spec fn wf(self) -> bool {
        &&& self.hose_timer.wf()
        &&& self.offset_index < OFFSET_COUNT
    }

    /// A fresh player: cooldown at rest with the standard period, the
    /// round-robin at the table's first entry.
    pub fn new() -> (p: Player)
        ensures
            p.wf(),
            p.hose_timer.period_us == HOSE_PERIOD_US,
            p.hose_timer.elapsed_us == 0,
            p.offset_index == 0,
    {
        Player { hose_timer: RepeatTimer::new(HOSE_PERIOD_US), offset_index: 0 }
    }

    /// Advance the round-robin and return the offset now under it.
    pub fn next_offset(&mut self) -> (off: i64)
        requires
            old(self).wf(),
        ensures
            final(self).wf(),
            final(self).hose_timer == old(self).hose_timer,
            final(self).offset_index == (old(self).offset_index + 1) % (OFFSET_COUNT as int),
            off == spec_offset(final(self).offset_index as int),
    {
        self.offset_index = (self.offset_index + 1) % OFFSET_COUNT;
        match self.offset_index {
            0 => -30_000,
            1 => -10_000,
            2 => 10_000,
            _ => 30_000,
        }
    }
}

/// One frame of the spray callback. With no pointer position available the
/// frame is skipped whole: no movement, no cooldown tick, no spawn. With a
/// pointer at `cx`, the player moves to `cx`; the cooldown then advances by
/// the frame's delta, and if it expired while the button is held, one fish
/// spawns at the next round-robin offset from `cx`, just below the player.
/// Returns the player's new x coordinate and the spawn, if any.
pub fn spray_step(
    player: &mut Player,
    player_x_milli: i64,
    player_y_milli: i64,
    cursor_x_milli: Option<i64>,
    button_held: bool,
    delta_us: u64,
) -> (r: (i64, Option<FishSpawn>))
    requires
        old(player).wf(),
        old(player).hose_timer.elapsed_us + delta_us <= u64::MAX,
        cursor_x_milli matches Some(cx) ==> i64::MIN + 30_000 <= cx <= i64::MAX - 30_000,
        player_y_milli >= i64::MIN + 28_000,
    ensures
        final(player).wf(),
        cursor_x_milli is None ==> *final(player) == *old(player) && r.0 == player_x_milli
            && r.1 is None,
        cursor_x_milli matches Some(cx) ==> ({
            let fired = old(player).hose_timer.elapsed_us + delta_us
                >= old(player).hose_timer.period_us;
            &&& final(player).hose_timer.period_us == old(player).hose_timer.period_us
            &&& final(player).hose_timer.elapsed_us == (old(player).hose_timer.elapsed_us
                + delta_us) as int % old(player).hose_timer.period_us as int
            &&& r.0 == cx
            &&& (fired && button_held) ==> ({
                &&& final(player).offset_index == (old(player).offset_index + 1) % (
                OFFSET_COUNT as int)
                &&& r.1 matches Some(f) && f.x_milli == cx + spec_offset(
                    final(player).offset_index as int,
                ) && f.y_milli == player_y_milli + FISH_DROP_Y_MILLI
            })
            &&& !(fired && button_held) ==> final(player).offset_index == old(
                player,
            ).offset_index && r.1 is None
        }),
{
    let cx: i64 = match cursor_x_milli {
        Some(cx) => cx,
        None => {
            return (player_x_milli, None);
        },
    };
    let fires = player.hose_timer.tick(delta_us);
    proof {
        vstd::arithmetic::div_mod::lemma_div_pos_is_pos(
            old(player).hose_timer.elapsed_us + delta_us,
            old(player).hose_timer.period_us as int,
        );
        crate::timer::lemma_div_at_least_one(
            old(player).hose_timer.elapsed_us + delta_us,
            old(player).hose_timer.period_us as int,
        );
    }
    let spawn: Option<FishSpawn> = if fires >= 1 && button_held {
        let off = player.next_offset();
        Some(FishSpawn { x_milli: cx + off, y_milli: player_y_milli + FISH_DROP_Y_MILLI })
    } else {
        None
    };
    (cx, spawn)
}

} // verus!
