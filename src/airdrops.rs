//! Airdrops: bundles of parts and ammunition that arrive on a timer.
use vstd::prelude::*;
use crate::crafting::{Inventory, InventoryView, Part, count_in, lootable_parts};
use crate::timer::{Timer, tick_view, fresh_view};
use crate::Score;

verus! {

/// The time between airdrops.
pub const AIRDROP_PERIOD_MS: u64 = 10_000;

/// The parts in an ordinary airdrop.
pub const AIRDROP_PARTS: usize = 3;

/// The parts in a bonus airdrop.
pub const BONUS_AIRDROP_PARTS: usize = 20;

/// The rounds of ammunition in an airdrop.
pub const AIRDROP_AMMO: u32 = 25;

/// The score for collecting an airdrop.
pub const AIRDROP_SCORE: u64 = 250;

/// An airdrop's bundle of parts.
#[derive(Clone, Debug)]
pub struct AirDrop(pub Vec<Part>);

impl AirDrop {
    /// A bundle of `count` parts, each drawn by loot weight.
    pub fn random(count: usize) -> (r: AirDrop)
        ensures
            r.0@.len() == count,
            forall|k: int| 0 <= k < count ==> lootable_parts().contains(#[trigger] r.0@[k]),
    {
        let mut parts: Vec<Part> = Vec::new();
        let mut i: usize = 0;
        while i < count
            invariant
                i <= count,
                parts@.len() == i,
                forall|k: int| 0 <= k < i ==> lootable_parts().contains(#[trigger] parts@[k]),
            decreases count - i,
        {
            parts.push(Part::random());
            i = i + 1;
        }
        AirDrop(parts)
    }

    /// An ordinary airdrop.
    pub fn standard() -> (r: AirDrop)
        ensures
            r.0@.len() == AIRDROP_PARTS,
            forall|k: int| 0 <= k < AIRDROP_PARTS ==> lootable_parts().contains(#[trigger] r.0@[k]),
    {
        AirDrop::random(AIRDROP_PARTS)
    }

    /// The larger airdrop that a killing spree earns.
    pub fn bonus() -> (r: AirDrop)
        ensures
            r.0@.len() == BONUS_AIRDROP_PARTS,
            forall|k: int| 0 <= k < BONUS_AIRDROP_PARTS ==> lootable_parts().contains(#[trigger] r.0@[k]),
    {
        AirDrop::random(BONUS_AIRDROP_PARTS)
    }

    /// Collects the airdrop: its parts and ammunition go to the inventory, its
    /// score to the score, and the airdrop timer starts over.
    pub fn collect(&self, inventory: &mut Inventory, score: &mut Score, timer: &mut AirDropTimer)
        requires
            forall|p: Part| old(inventory)@.parts[p] + count_in(self.0@, p) <= u32::MAX,
            old(inventory)@.ammo + AIRDROP_AMMO <= u32::MAX,
        ensures
            final(inventory)@ == (InventoryView {
                parts: Map::total(|p: Part| old(inventory)@.parts[p] + count_in(self.0@, p)),
                items: old(inventory)@.items,
                ammo: (old(inventory)@.ammo + AIRDROP_AMMO) as nat,
            }),
            final(score).0 == Score::saturated(old(score).0 + AIRDROP_SCORE),
            final(timer).0@ == fresh_view(old(timer).0@.duration, old(timer).0@.repeating),
    {
        inventory.add_parts(self.0.as_slice());
        inventory.add_ammo(AIRDROP_AMMO);
        score.add(AIRDROP_SCORE);
        timer.0.reset();
    }
}

/// The timer until the next airdrop.
pub struct AirDropTimer(pub Timer);

impl AirDropTimer {
    /// A timer already halfway to the first airdrop.
    pub fn new() -> (r: AirDropTimer)
        ensures
            r.0@ == tick_view(fresh_view(AIRDROP_PERIOD_MS as nat, false), AIRDROP_PERIOD_MS as nat / 2),
    {
        let mut t = Timer::new(AIRDROP_PERIOD_MS, false);
        t.tick(AIRDROP_PERIOD_MS / 2);
        AirDropTimer(t)
    }

    /// Advances the timer by `delta_ms`. Returns whether an airdrop is due.
    pub fn tick(&mut self, delta_ms: u64) -> (r: bool)
        ensures
            final(self).0@ == tick_view(old(self).0@, delta_ms as nat),
            r == final(self).0@.just_finished,
    {
        self.0.tick(delta_ms);
        self.0.just_finished()
    }

    /// Starts the timer over, halfway to the next airdrop, for a new round.
    pub fn restart(&mut self)
        ensures
            final(self).0@ == tick_view(
                fresh_view(old(self).0@.duration, old(self).0@.repeating),
                old(self).0@.duration / 2,
            ),
    {
        self.0.reset();
        let half = self.0.duration_ms() / 2;
        self.0.tick(half);
    }
}

} // verus!
