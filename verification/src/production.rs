//! The tests on plain counts that decide what the agent builds, trains and
//! sends to attack. What they are asked about (how far research is, what can
//! be paid, where a building fits) the host finds out.

use crate::flourish_bot::FlourishBot;
use vstd::prelude::*;

verus! {

/// Minerals below which the agent builds nothing.
pub const BUILD_FLOOR: u32 = 75;

/// Minerals below which the agent trains nothing.
pub const TRAIN_FLOOR: u32 = 50;

/// Gas buildings that the agent wants for each of its bases.
pub const EXTRACTORS_PER_HATCHERY: usize = 2;

/// Workers that the agent wants for each of its bases.
pub const WORKERS_PER_HATCHERY: usize = 16;

/// Workers beyond which the agent trains no more.
pub const WORKER_CAP: usize = 80;

/// Frontline units above which an attack begins, once the research for it
/// is all but done.
pub const ATTACK_START: usize = 20;

/// Frontline units above which an attack that is under way goes on.
pub const ATTACK_END: usize = 3;

/// The workers that an agent with `hatcheries` bases wants.
pub open spec fn workers_wanted(hatcheries: usize) -> int {
    if hatcheries * WORKERS_PER_HATCHERY < WORKER_CAP {
        hatcheries * WORKERS_PER_HATCHERY
    } else {
        WORKER_CAP as int
    }
}

/// Whether the agent has the minerals to build at all.
pub fn can_build(minerals: u32) -> (open: bool)
    ensures
        open == (minerals >= BUILD_FLOOR),
{
    minerals >= BUILD_FLOOR
}

/// Whether the agent has the minerals to train at all.
pub fn can_train(minerals: u32) -> (open: bool)
    ensures
        open == (minerals >= TRAIN_FLOOR),
{
    minerals >= TRAIN_FLOOR
}

/// Whether the agent builds a gas building: it is not rich in gas, has
/// fewer than two for each base, and can pay for one.
pub fn wants_extractor(has_enough_gas: bool, extractors: usize, hatcheries: usize, affordable: bool) -> (wanted:
    bool)
    ensures
        wanted == (!has_enough_gas && extractors < EXTRACTORS_PER_HATCHERY * hatcheries && affordable),
{
    !has_enough_gas && (extractors as u128) < EXTRACTORS_PER_HATCHERY as u128 * hatcheries as u128
        && affordable
}

/// Whether the agent trains a queen: it has fewer than bases, and can pay
/// for one.
pub fn wants_queen(queens: usize, townhalls: usize, affordable: bool) -> (wanted: bool)
    ensures
        wanted == (queens < townhalls && affordable),
{
    queens < townhalls && affordable
}

/// Whether the agent trains a worker: it has fewer than it wants for its
/// bases, and can pay for one.
pub fn wants_drone(supply_workers: u32, hatcheries: usize, affordable: bool) -> (wanted: bool)
    ensures
        wanted == (supply_workers < workers_wanted(hatcheries) && affordable),
{
    let goal: usize = if hatcheries < WORKER_CAP / WORKERS_PER_HATCHERY {
        hatcheries * WORKERS_PER_HATCHERY
    } else {
        WORKER_CAP
    };
    (supply_workers as u64) < goal as u64 && affordable
}

/// Whether the frontline units attack: an attack begins with more than
/// `ATTACK_START` of them once the research is all but done, and goes on
/// while more than `ATTACK_END` are left.
pub open spec fn attacks(upgrades_almost_ready: bool, zerglings: usize, attacking: bool) -> bool {
    (upgrades_almost_ready && zerglings > ATTACK_START) || (attacking && zerglings > ATTACK_END)
}

/// Computes [`attacks`].
pub fn should_attack(upgrades_almost_ready: bool, zerglings: usize, attacking: bool) -> (attack: bool)
    ensures
        attack == attacks(upgrades_almost_ready, zerglings, attacking),
{
    upgrades_almost_ready && zerglings > ATTACK_START || attacking && zerglings > ATTACK_END
}

impl FlourishBot {
    /// Decides whether the frontline units attack at this tick, and notes
    /// the decision for the next.
    pub fn decide_attack(&mut self, upgrades_almost_ready: bool, zerglings: usize) -> (attack: bool)
        ensures
            attack == attacks(upgrades_almost_ready, zerglings, old(self).attacking),
            *final(self) == (FlourishBot { attacking: attack, ..*old(self) }),
    {
        let attack = should_attack(upgrades_almost_ready, zerglings, self.attacking);
        self.attacking = attack;
        attack
    }
}

} // verus!
