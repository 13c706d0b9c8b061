//! The threat tracker: which enemy units are believed alive, and what they
//! are worth together.

use crate::costs::CostTable;
use crate::flourish_bot::FlourishBot;
use crate::kinds::UnitKind;
use crate::queue::{entries, get_priority, new_queue, pop, push, queue_len, remove};
use crate::snapshot::{EnemyUnit, Snapshot};
use crate::threat::{
    agrees, all_agree, catalog_supply, clamped, death_conserves, decay_conserves, sighting_conserves,
    sum_is_bounded, sum_of_none, sum_with, supply_sum, Threat,
};
use priority_queue::PriorityQueue;
use vstd::prelude::*;

verus! {

/// The enemy units that have been seen and are not known to be gone, each
/// with the tick at which it was last seen, and the supply that they sum to.
///
/// The units lie in a queue that hands out the one seen longest ago first:
/// the priority of a unit is its last sighting, negated.
pub struct Surveillance {
    enemy_units: PriorityQueue<(u64, u64), i64>,
    enemy_army_supply: i128,
    decay_window: u32,
}

/// The whole supply points that `aggregate` halves come to: rounded up, and
/// held to the range from nothing to the greatest count.
pub open spec fn rounded_supply(aggregate: int) -> int {
    if aggregate <= 0 {
        0
    } else if (aggregate + 1) / 2 > u32::MAX {
        u32::MAX as int
    } else {
        (aggregate + 1) / 2
    }
}

/// `a + by`, held to the range of the aggregate.
fn raised(a: i128, by: u32) -> (r: i128)
    ensures
        r == clamped(a + by),
{
    if a > i128::MAX - by as i128 {
        i128::MAX
    } else {
        a + by as i128
    }
}

/// `a - by`, held to the range of the aggregate.
fn lowered(a: i128, by: u32) -> (r: i128)
    ensures
        r == clamped(a - by),
{
    if a < i128::MIN + by as i128 {
        i128::MIN
    } else {
        a - by as i128
    }
}

impl Surveillance {
    /// What the tracker knows.
    pub closed spec fn view(&self) -> Threat {
        Threat {
            sightings: Map::new(
                |key: (u64, u64)| entries(self.enemy_units).dom().contains(key),
                |key: (u64, u64)| -(entries(self.enemy_units)[key] as int),
            ),
            aggregate: self.enemy_army_supply as int,
            window: self.decay_window as int,
        }
    }

    /// The tracker is in order: it holds no more units than its capacity,
    /// and every last sighting is a tick.
    pub open spec fn wf(&self) -> bool {
        &&& self@.bounded()
        &&& forall|key: (u64, u64)| #[trigger]
            self@.sightings.dom().contains(key) ==> 0 <= self@.sightings[key] <= u32::MAX
        &&& i128::MIN <= self@.aggregate <= i128::MAX
    }

    /// A tracker that knows of no enemy unit. With a decay window of
    /// nothing every decay takes out all that is held, what was seen at its
    /// own tick too.
    pub fn new(decay_window: u32) -> (s: Surveillance)
        ensures
            s@ == Threat::nothing(decay_window as int),
            s.wf(),
    {
        let s = Surveillance { enemy_units: new_queue(), enemy_army_supply: 0, decay_window };
        assert(s@.sightings =~= Map::empty());
        assert(s@.sightings.dom() =~= Set::empty());
        s
    }

    /// Notes that `unit` was seen at `tick`.
    pub fn observe(&mut self, unit: &EnemyUnit, tick: u32)
        requires
            old(self).wf(),
        ensures
            final(self)@ == old(self)@.seen(*unit, tick as int),
            final(self).wf(),
            forall|costs: CostTable|
                #![trigger old(self)@.conserves(costs)]
                old(self)@.conserves(costs) && agrees(*unit, costs) ==> final(self)@.conserves(costs),
    {
        proof {
            assert forall|costs: CostTable|
                #![trigger old(self)@.conserves(costs)]
                old(self)@.conserves(costs) && agrees(*unit, costs) implies old(self)@.seen(
                *unit,
                tick as int,
            ).conserves(costs) by {
                sighting_conserves(old(self)@, *unit, tick as int, costs);
            }
        }
        if unit.is_worker {
            return ;
        }
        // read for the bound it gives: one more unit stays within the capacity
        let _known = queue_len(&self.enemy_units);
        assert(self@.sightings.dom() =~= entries(self.enemy_units).dom());
        let key = (unit.tag, unit.kind.to_code());
        let previous = push(&mut self.enemy_units, key, -(tick as i64));
        if previous.is_none() {
            // if this unit hasn't been seen before at all
            self.enemy_army_supply = raised(self.enemy_army_supply, unit.supply_cost);
        }
        assert(self@.sightings =~= old(self)@.sightings.insert(key, tick as int));
    }

    /// Notes that the death of `unit` was reported.
    pub fn observed_enemy_unit_die(&mut self, unit: EnemyUnit)
        requires
            old(self).wf(),
        ensures
            final(self)@ == old(self)@.died(unit),
            final(self).wf(),
            forall|costs: CostTable|
                #![trigger old(self)@.conserves(costs)]
                old(self)@.conserves(costs) && unit.supply_cost == costs.unit_cost(unit.kind).supply
                    ==> final(self)@.conserves(costs),
    {
        proof {
            assert forall|costs: CostTable|
                #![trigger old(self)@.conserves(costs)]
                old(self)@.conserves(costs) && unit.supply_cost == costs.unit_cost(
                    unit.kind,
                ).supply implies old(self)@.died(unit).conserves(costs) by {
                death_conserves(old(self)@, unit, costs);
            }
        }
        let key = (unit.tag, unit.kind.to_code());
        let removed = remove(&mut self.enemy_units, key);
        if removed.is_some() {
            self.enemy_army_supply = lowered(self.enemy_army_supply, unit.supply_cost);
            assert(self@.sightings =~= old(self)@.sightings.remove(key));
        } else {
            assert(self@.sightings =~= old(self)@.sightings);
        }
    }

    /// How many units are believed alive.
    pub fn known_units(&self) -> (n: usize)
        ensures
            n == self@.sightings.dom().len(),
    {
        assert(self@.sightings.dom() =~= entries(self.enemy_units).dom());
        queue_len(&self.enemy_units)
    }

    /// The aggregate: the supply counted for the units that are believed
    /// alive, in halves of a supply point. It is below nothing only where
    /// units left with more supply than they came with.
    pub fn enemy_army_supply(&self) -> (halves: i128)
        ensures
            halves == self@.aggregate,
    {
        self.enemy_army_supply
    }

    /// The whole supply points that the enemy's army comes to, rounded up.
    pub fn rounded_enemy_supply(&self) -> (supply: u32)
        ensures
            supply == rounded_supply(self@.aggregate),
    {
        let halves = self.enemy_army_supply;
        if halves <= 0 {
            0
        } else {
            let points: i128 = halves / 2 + halves % 2;
            if points > u32::MAX as i128 {
                u32::MAX
            } else {
                points as u32
            }
        }
    }

    /// The tick at which the unit with the tag `tag` and the kind `kind` was
    /// last seen, or `None` where it is not believed alive.
    pub fn last_seen(&self, tag: u64, kind: UnitKind) -> (tick: Option<u32>)
        requires
            self.wf(),
        ensures
            tick == if self@.sightings.dom().contains((tag, kind.code())) {
                Some(self@.sightings[(tag, kind.code())] as u32)
            } else {
                None
            },
    {
        let key = (tag, kind.to_code());
        match get_priority(&self.enemy_units, key) {
            Some(priority) => {
                assert(self@.sightings.dom().contains(key));
                Some((-priority) as u32)
            },
            None => None,
        }
    }

    /// Takes out the units that are stale at `tick`, the one seen longest
    /// ago first, and lowers the aggregate by what `costs` gives for the
    /// kind of each.
    pub fn decay(&mut self, costs: &CostTable, tick: u32)
        requires
            old(self).wf(),
        ensures
            final(self)@ == old(self)@.decayed(*costs, tick as int),
            final(self).wf(),
            old(self)@.conserves(*costs) ==> final(self)@.conserves(*costs),
    {
        proof {
            if old(self)@.conserves(*costs) {
                decay_conserves(old(self)@, *costs, tick as int);
            }
        }
        let ghost start = self@;
        let ghost window = self.decay_window as int;
        let ghost mut gone: Set<(u64, u64)> = Set::empty();
        proof {
            sum_of_none(*costs);
        }
        loop
            invariant
                self.decay_window == window,
                start.window == window,
                start.bounded(),
                i128::MIN <= start.aggregate <= i128::MAX,
                gone.finite(),
                self@.sightings.dom().finite(),
                gone.disjoint(self@.sightings.dom()),
                gone.union(self@.sightings.dom()) == start.sightings.dom(),
                forall|key: (u64, u64)| #[trigger]
                    self@.sightings.dom().contains(key) ==> self@.sightings[key] == start.sightings[key],
                forall|key: (u64, u64)| #[trigger] gone.contains(key) ==> start.is_stale(key, tick as int),
                self@.aggregate == clamped(start.aggregate - supply_sum(gone, *costs)),
            ensures
                self@ == start.decayed(*costs, tick as int),
                self@.sightings.dom().finite(),
            decreases self@.sightings.dom().len(),
        {
            let ghost before = self@;
            assert(self@.sightings.dom() =~= entries(self.enemy_units).dom());
            match pop(&mut self.enemy_units) {
                None => {
                    proof {
                        assert(self@.sightings =~= before.sightings);
                        assert(gone =~= start.stale_keys(tick as int));
                        assert(self@.sightings =~= start.decayed(*costs, tick as int).sightings);
                    }
                    break ;
                },
                Some((key, priority)) => {
                    let seen: i128 = -(priority as i128);
                    if seen + self.decay_window as i128 > tick as i128 {
                        // seen within the window: leave it, and all that were seen later
                        push(&mut self.enemy_units, key, priority);
                        proof {
                            assert(self@.sightings =~= before.sightings);
                            assert forall|other: (u64, u64)|
                                start.is_stale(other, tick as int) implies gone.contains(other) by {
                                if before.sightings.dom().contains(other) {
                                    assert(before.sightings[other] >= before.sightings[key]);
                                }
                            }
                            assert(gone =~= start.stale_keys(tick as int));
                            assert(self@.sightings =~= start.decayed(*costs, tick as int).sightings);
                        }
                        break ;
                    }
                    let supply: u32 = match UnitKind::from_code(key.1) {
                        Some(kind) => costs.get_unit_cost(kind).supply,
                        None => 0,
                    };
                    self.enemy_army_supply = lowered(self.enemy_army_supply, supply);
                    proof {
                        assert(supply == catalog_supply(*costs, key.1));
                        assert(self@.sightings =~= before.sightings.remove(key));
                        sum_with(gone, *costs, key);
                        sum_is_bounded(gone, *costs);
                        gone = gone.insert(key);
                        assert(gone.union(self@.sightings.dom()) =~= start.sightings.dom());
                    }
                },
            }
        }
        proof {
            vstd::set_lib::lemma_len_subset(self@.sightings.dom(), start.sightings.dom());
        }
    }
}

impl FlourishBot {
    /// Brings the tracker's record of the enemy's army up to the tick of
    /// `snapshot`: the units in sight are noted as seen, workers left out,
    /// and then the units that were not seen for the length of the decay
    /// window are taken out.
    pub fn update_enemy_units(&mut self, snapshot: &Snapshot)
        requires
            old(self).surveillance.wf(),
        ensures
            final(self).surveillance@ == old(self).surveillance@.seen_all(
                snapshot.enemies@,
                snapshot.game_loop as int,
            ).decayed(snapshot.costs, snapshot.game_loop as int),
            final(self).surveillance.wf(),
            old(self).surveillance@.conserves(snapshot.costs) && all_agree(snapshot.enemies@, snapshot.costs)
                ==> final(self).surveillance@.conserves(snapshot.costs),
            final(self).build_scheduler == old(self).build_scheduler,
            final(self).upgrades_to_research == old(self).upgrades_to_research,
            final(self).last_loop_distributed == old(self).last_loop_distributed,
            final(self).last_loop_upgraded == old(self).last_loop_upgraded,
            final(self).has_enough_gas == old(self).has_enough_gas,
            final(self).has_way_too_much_gas == old(self).has_way_too_much_gas,
            final(self).has_enough_workers_for_gas == old(self).has_enough_workers_for_gas,
            final(self).attacking == old(self).attacking,
    {
        let current_step = snapshot.game_loop;
        let mut i: usize = 0;
        while i < snapshot.enemies.len()
            invariant
                i <= snapshot.enemies@.len(),
                current_step == snapshot.game_loop,
                self.surveillance.wf(),
                self.surveillance@ == old(self).surveillance@.seen_all(
                    snapshot.enemies@.take(i as int),
                    current_step as int,
                ),
                old(self).surveillance@.conserves(snapshot.costs) && all_agree(snapshot.enemies@, snapshot.costs)
                    ==> self.surveillance@.conserves(snapshot.costs),
                self.build_scheduler == old(self).build_scheduler,
                self.upgrades_to_research == old(self).upgrades_to_research,
                self.last_loop_distributed == old(self).last_loop_distributed,
                self.last_loop_upgraded == old(self).last_loop_upgraded,
                self.has_enough_gas == old(self).has_enough_gas,
                self.has_way_too_much_gas == old(self).has_way_too_much_gas,
                self.has_enough_workers_for_gas == old(self).has_enough_workers_for_gas,
                self.attacking == old(self).attacking,
            decreases snapshot.enemies@.len() - i,
        {
            assert(snapshot.enemies@.take(i + 1).drop_last() =~= snapshot.enemies@.take(i as int));
            self.surveillance.observe(&snapshot.enemies[i], current_step);
            i += 1;
        }
        assert(snapshot.enemies@.take(i as int) =~= snapshot.enemies@);
        self.surveillance.decay(&snapshot.costs, current_step);
    }
}

} // verus!
