//! The build backlog: a priority for each thing the agent may produce.
//!
//! The backlog ranks; it does not gate. What is produced is decided where it
//! is produced, by what can be paid and what is already there, and the
//! backlog's top entry is advice on what to try next.

use crate::flourish_bot::FlourishBot;
use crate::kinds::{Buildable, UnitKind, UpgradeKind};
use crate::queue::{change_priority, entries, get_priority, new_queue, peek, push};
use crate::snapshot::Snapshot;
use crate::surveillance::rounded_supply;
use priority_queue::PriorityQueue;
use vstd::prelude::*;

verus! {

/// The priority with which every upgrade enters the backlog.
pub const UPGRADE_PRIORITY: i32 = 40;

/// The priority of the frontline unit while the enemy's army is the greater.
pub const FRONTLINE_BEHIND: i32 = 100;

/// The priority of the mid-tier unit while the enemy's army is the greater
/// and the agent has few of it.
pub const MID_TIER_BEHIND_WANTED: i32 = 150;

/// The priority of the mid-tier unit while the enemy's army is the greater
/// and the agent has enough of it.
pub const MID_TIER_BEHIND: i32 = 90;

/// The priority of the frontline unit while the agent's army is no smaller.
pub const FRONTLINE_LEVEL: i32 = 10;

/// The priority of the mid-tier unit while the agent's army is no smaller
/// and the agent has few of it.
pub const MID_TIER_LEVEL_WANTED: i32 = 15;

/// The priority of the mid-tier unit while the agent's army is no smaller
/// and the agent has enough of it.
pub const MID_TIER_LEVEL: i32 = 9;

/// The backlog of buildables, each with its priority.
pub struct BuildScheduler {
    build_queue: PriorityQueue<(u64, u64), i64>,
}

/// Whether `kind` is one of the units and structures with which the backlog
/// starts.
pub open spec fn is_seeded(kind: UnitKind) -> bool {
    kind == UnitKind::Drone || kind == UnitKind::Zergling || kind == UnitKind::Roach || kind
        == UnitKind::Overlord || kind == UnitKind::Hatchery || kind == UnitKind::Lair || kind
        == UnitKind::Hive || kind == UnitKind::SpawningPool || kind == UnitKind::EvolutionChamber || kind
        == UnitKind::RoachWarren || kind == UnitKind::Extractor
}

/// The backlog at the start: the seeded units and structures at priority
/// zero, and each of `upgrades` at `UPGRADE_PRIORITY`.
pub open spec fn initial_backlog(upgrades: Seq<UpgradeKind>) -> Map<Buildable, int> {
    Map::new(
        |b: Buildable|
            match b {
                Buildable::Unit(kind) => is_seeded(kind),
                Buildable::Upgrade(kind) => upgrades.contains(kind),
            },
        |b: Buildable|
            match b {
                Buildable::Unit(_) => 0int,
                Buildable::Upgrade(_) => UPGRADE_PRIORITY as int,
            },
    )
}

/// `backlog` with the priority of `b` set to `priority`, where `b` is in it;
/// else `backlog` as it is.
pub open spec fn reprioritised(backlog: Map<Buildable, int>, b: Buildable, priority: int) -> Map<Buildable, int> {
    if backlog.dom().contains(b) {
        backlog.insert(b, priority)
    } else {
        backlog
    }
}

/// Whether the agent has few of the mid-tier unit: less than one to two of
/// the frontline unit.
pub open spec fn wants_mid_tier(mid_tier: u32, frontline: u32) -> bool {
    2 * mid_tier < frontline
}

/// The priority that the frontline unit gets.
pub open spec fn frontline_priority(own_army_value: u32, enemy_army_value: u32) -> int {
    if own_army_value < enemy_army_value {
        FRONTLINE_BEHIND as int
    } else {
        FRONTLINE_LEVEL as int
    }
}

/// The priority that the mid-tier unit gets.
pub open spec fn mid_tier_priority(own_army_value: u32, enemy_army_value: u32, mid_tier: u32, frontline: u32) -> int {
    if own_army_value < enemy_army_value {
        if wants_mid_tier(mid_tier, frontline) {
            MID_TIER_BEHIND_WANTED as int
        } else {
            MID_TIER_BEHIND as int
        }
    } else if wants_mid_tier(mid_tier, frontline) {
        MID_TIER_LEVEL_WANTED as int
    } else {
        MID_TIER_LEVEL as int
    }
}

/// `backlog` after the priorities of the frontline unit and the mid-tier
/// unit were set anew.
pub open spec fn reweighted(
    backlog: Map<Buildable, int>,
    own_army_value: u32,
    enemy_army_value: u32,
    mid_tier: u32,
    frontline: u32,
) -> Map<Buildable, int> {
    reprioritised(
        reprioritised(
            backlog,
            Buildable::Unit(UnitKind::Zergling),
            frontline_priority(own_army_value, enemy_army_value),
        ),
        Buildable::Unit(UnitKind::Roach),
        mid_tier_priority(own_army_value, enemy_army_value, mid_tier, frontline),
    )
}

/// Setting a priority twice is setting it once.
pub proof fn reprioritising_is_idempotent(backlog: Map<Buildable, int>, b: Buildable, priority: int)
    ensures
        reprioritised(reprioritised(backlog, b, priority), b, priority) == reprioritised(backlog, b, priority),
{
    assert(reprioritised(reprioritised(backlog, b, priority), b, priority) =~= reprioritised(
        backlog,
        b,
        priority,
    ));
}

/// Whether `b` is in `backlog` and nothing in it has a greater priority.
pub open spec fn is_first(backlog: Map<Buildable, int>, b: Buildable) -> bool {
    &&& backlog.dom().contains(b)
    &&& forall|other: Buildable| #[trigger] backlog.dom().contains(other) ==> backlog[other] <= backlog[b]
}

impl BuildScheduler {
    /// The backlog: the priority of each buildable that is in it.
    pub closed spec fn backlog(&self) -> Map<Buildable, int> {
        Map::new(
            |b: Buildable| entries(self.build_queue).dom().contains(b.key()),
            |b: Buildable| entries(self.build_queue)[b.key()] as int,
        )
    }

    /// The scheduler is in order: what its queue holds are buildables with
    /// priorities in range.
    pub closed spec fn wf(&self) -> bool {
        forall|key: (u64, u64)| #[trigger]
            entries(self.build_queue).dom().contains(key) ==> {
                &&& exists|b: Buildable| b.key() == key
                &&& i32::MIN <= entries(self.build_queue)[key] <= i32::MAX
            }
    }

    /// The backlog at the start of a session.
    pub fn initialise(upgrades_to_research: &Vec<UpgradeKind>) -> (scheduler: Self)
        ensures
            scheduler.backlog() == initial_backlog(upgrades_to_research@),
            scheduler.wf(),
    {
        let mut queue = new_queue();
        let seeds: [UnitKind; 11] = [
            UnitKind::Drone,
            UnitKind::Zergling,
            UnitKind::Roach,
            UnitKind::Overlord,
            UnitKind::Hatchery,
            UnitKind::Lair,
            UnitKind::Hive,
            UnitKind::SpawningPool,
            UnitKind::EvolutionChamber,
            UnitKind::RoachWarren,
            UnitKind::Extractor,
        ];
        let mut s: usize = 0;
        while s < 11
            invariant
                s <= 11,
                seeds@.len() == 11,
                forall|k: UnitKind| is_seeded(k) <==> exists|i: int| 0 <= i < 11 && seeds@[i] == k,
                forall|key: (u64, u64)| #[trigger]
                    entries(queue).dom().contains(key) <==> exists|i: int|
                        0 <= i < s && Buildable::Unit(#[trigger] seeds@[i]).key() == key,
                forall|key: (u64, u64)| #[trigger] entries(queue).dom().contains(key) ==> entries(queue)[key] == 0,
            decreases 11 - s,
        {
            let ghost before = entries(queue);
            push(&mut queue, Buildable::Unit(seeds[s]).to_key(), 0);
            proof {
                assert forall|key: (u64, u64)| #[trigger]
                    entries(queue).dom().contains(key) implies exists|i: int|
                    0 <= i < s + 1 && Buildable::Unit(#[trigger] seeds@[i]).key() == key by {
                    if key == Buildable::Unit(seeds@[s as int]).key() {
                    } else {
                        assert(before.dom().contains(key));
                    }
                }
            }
            s += 1;
        }
        let ghost seeded = entries(queue);
        let mut u: usize = 0;
        while u < upgrades_to_research.len()
            invariant
                u <= upgrades_to_research@.len(),
                forall|key: (u64, u64)| #[trigger]
                    entries(queue).dom().contains(key) <==> seeded.dom().contains(key) || exists|i: int|
                        0 <= i < u && Buildable::Upgrade(#[trigger] upgrades_to_research@[i]).key() == key,
                forall|key: (u64, u64)| #[trigger]
                    seeded.dom().contains(key) ==> key.0 == crate::kinds::UNIT_CLASS && entries(queue)[key] == 0,
                forall|key: (u64, u64)| #[trigger]
                    entries(queue).dom().contains(key) && !seeded.dom().contains(key) ==> entries(queue)[key]
                        == UPGRADE_PRIORITY,
            decreases upgrades_to_research@.len() - u,
        {
            let ghost before = entries(queue);
            push(&mut queue, Buildable::Upgrade(upgrades_to_research[u]).to_key(), UPGRADE_PRIORITY as i64);
            proof {
                assert forall|key: (u64, u64)| #[trigger]
                    entries(queue).dom().contains(key) implies seeded.dom().contains(key) || exists|i: int|
                    0 <= i < u + 1 && Buildable::Upgrade(#[trigger] upgrades_to_research@[i]).key() == key by {
                    if key == Buildable::Upgrade(upgrades_to_research@[u as int]).key() {
                    } else {
                        assert(before.dom().contains(key));
                    }
                }
            }
            u += 1;
        }
        let scheduler = BuildScheduler { build_queue: queue };
        proof {
            let want = initial_backlog(upgrades_to_research@);
            assert forall|b: Buildable| scheduler.backlog().dom().contains(b) <==> want.dom().contains(b) by {
                match b {
                    Buildable::Unit(kind) => {
                        if is_seeded(kind) {
                            let i = choose|i: int| 0 <= i < 11 && seeds@[i] == kind;
                            assert(Buildable::Unit(seeds@[i]).key() == b.key());
                        }
                    },
                    Buildable::Upgrade(kind) => {
                        if upgrades_to_research@.contains(kind) {
                            let i = choose|i: int|
                                0 <= i < upgrades_to_research@.len() && upgrades_to_research@[i] == kind;
                            assert(Buildable::Upgrade(upgrades_to_research@[i]).key() == b.key());
                        }
                    },
                }
            }
            assert(scheduler.backlog() =~= want);
        }
        scheduler
    }

    /// The priority of `b`, or `None` where `b` is not in the backlog.
    pub fn priority_of(&self, b: Buildable) -> (priority: Option<i32>)
        requires
            self.wf(),
        ensures
            priority == if self.backlog().dom().contains(b) {
                Some(self.backlog()[b] as i32)
            } else {
                None
            },
    {
        match get_priority(&self.build_queue, b.to_key()) {
            Some(p) => Some(p as i32),
            None => None,
        }
    }

    /// Sets the priority of `b` where `b` is in the backlog, and does
    /// nothing where it is not.
    pub fn change_priority(&mut self, b: Buildable, priority: i32)
        requires
            old(self).wf(),
        ensures
            final(self).backlog() == reprioritised(old(self).backlog(), b, priority as int),
            final(self).wf(),
    {
        change_priority(&mut self.build_queue, b.to_key(), priority as i64);
        assert(self.backlog() =~= reprioritised(old(self).backlog(), b, priority as int));
    }

    /// Sets the priorities of the frontline unit and of the mid-tier unit
    /// by how the two armies compare and by how many of each unit the agent
    /// has produced.
    pub fn reweight(&mut self, own_army_value: u32, enemy_army_value: u32, mid_tier: u32, frontline: u32)
        requires
            old(self).wf(),
        ensures
            final(self).backlog() == reweighted(
                old(self).backlog(),
                own_army_value,
                enemy_army_value,
                mid_tier,
                frontline,
            ),
            final(self).wf(),
    {
        let wanted = 2 * (mid_tier as u64) < frontline as u64;
        if own_army_value < enemy_army_value {
            // the enemy has more than the agent: the agent could be about to lose
            self.change_priority(Buildable::Unit(UnitKind::Zergling), FRONTLINE_BEHIND);
            if wanted {
                self.change_priority(Buildable::Unit(UnitKind::Roach), MID_TIER_BEHIND_WANTED);
            } else {
                self.change_priority(Buildable::Unit(UnitKind::Roach), MID_TIER_BEHIND);
            }
            return ;
        }
        self.change_priority(Buildable::Unit(UnitKind::Zergling), FRONTLINE_LEVEL);
        if wanted {
            self.change_priority(Buildable::Unit(UnitKind::Roach), MID_TIER_LEVEL_WANTED);
        } else {
            self.change_priority(Buildable::Unit(UnitKind::Roach), MID_TIER_LEVEL);
        }
    }

    /// What to try next: a buildable with the greatest priority, and that
    /// priority; `None` where the backlog is empty.
    pub fn top(&self) -> (first: Option<(Buildable, i32)>)
        requires
            self.wf(),
        ensures
            match first {
                Some((b, priority)) => is_first(self.backlog(), b) && self.backlog()[b] == priority,
                None => self.backlog().dom() == Set::<Buildable>::empty(),
            },
    {
        match peek(&self.build_queue) {
            Some((key, priority)) => {
                match Buildable::from_key(key) {
                    Some(b) => {
                        assert(self.backlog().dom().contains(b));
                        Some((b, priority as i32))
                    },
                    None => {
                        proof {
                            assert(entries(self.build_queue).dom().contains(key));
                            let b = choose|b: Buildable| b.key() == key;
                            assert(b.key() == key);
                        }
                        None
                    },
                }
            },
            None => {
                assert(self.backlog().dom() =~= Set::<Buildable>::empty());
                None
            },
        }
    }
}

impl FlourishBot {
    /// Sets the priorities of the army units anew from what `snapshot`
    /// shows of the agent's army and what the tracker counts for the
    /// enemy's.
    pub fn update_military_priority(&mut self, snapshot: &Snapshot)
        requires
            old(self).build_scheduler.wf(),
        ensures
            final(self).build_scheduler.backlog() == reweighted(
                old(self).build_scheduler.backlog(),
                snapshot.supply_army,
                rounded_supply(old(self).surveillance@.aggregate) as u32,
                snapshot.roaches,
                snapshot.zerglings,
            ),
            final(self).build_scheduler.wf(),
            final(self).surveillance == old(self).surveillance,
            final(self).upgrades_to_research == old(self).upgrades_to_research,
            final(self).last_loop_distributed == old(self).last_loop_distributed,
            final(self).last_loop_upgraded == old(self).last_loop_upgraded,
            final(self).has_enough_gas == old(self).has_enough_gas,
            final(self).has_way_too_much_gas == old(self).has_way_too_much_gas,
            final(self).has_enough_workers_for_gas == old(self).has_enough_workers_for_gas,
            final(self).attacking == old(self).attacking,
    {
        let my_army_supply = snapshot.supply_army;
        let enemy_army_supply = self.surveillance.rounded_enemy_supply();
        self.build_scheduler.reweight(my_army_supply, enemy_army_supply, snapshot.roaches, snapshot.zerglings);
    }
}

} // verus!
