//! The decision core: the state that lasts from tick to tick.

use crate::build_scheduler::{initial_backlog, BuildScheduler};
use crate::kinds::UpgradeKind;
use crate::snapshot::Snapshot;
use crate::surveillance::Surveillance;
use crate::threat::{all_agree, Threat};
use vstd::prelude::*;

verus! {

/// The state of the decision core.
pub struct FlourishBot {
    /// The tick of the last worker distribution pass.
    pub last_loop_distributed: u32,
    /// The tick of the last run of the upgrade resolver.
    pub last_loop_upgraded: u32,
    /// The agent was rich in gas when it last looked.
    pub has_enough_gas: bool,
    /// The agent had gas far beyond its minerals when it last looked.
    pub has_way_too_much_gas: bool,
    /// The agent had the workers to spare for gas when it last looked.
    pub has_enough_workers_for_gas: bool,
    /// The frontline units are on the attack.
    pub attacking: bool,
    /// The upgrades that are still to be researched, in their order.
    pub upgrades_to_research: Vec<UpgradeKind>,
    pub build_scheduler: BuildScheduler,
    pub surveillance: Surveillance,
}

/// The decay window in ticks where the host does not say otherwise: three
/// minutes at 22.4 ticks to the second.
pub const DEFAULT_DECAY_WINDOW: u32 = 4032;

/// Vespene above which the agent counts as rich in gas, where it also has
/// more than a third of its minerals in gas.
pub const GAS_RICH_FLOOR: u32 = 200;

/// Drones above which the agent has workers to spare for gas.
pub const WORKERS_BEFORE_GAS: u32 = 10;

/// The upgrades that the agent sets out to research, in their order.
pub open spec fn research_plan() -> Seq<UpgradeKind> {
    seq![
        UpgradeKind::Zerglingmovementspeed,
        UpgradeKind::ZergMeleeWeaponsLevel1,
        UpgradeKind::ZergMissileWeaponsLevel1,
        UpgradeKind::ZergFlyerWeaponsLevel1,
        UpgradeKind::ZergGroundArmorsLevel1,
        UpgradeKind::ZergFlyerArmorsLevel1,
        UpgradeKind::GlialReconstitution,
        UpgradeKind::TunnelingClaws,
        UpgradeKind::ZergMeleeWeaponsLevel2,
        UpgradeKind::ZergMissileWeaponsLevel2,
        UpgradeKind::ZergFlyerWeaponsLevel2,
        UpgradeKind::ZergGroundArmorsLevel2,
        UpgradeKind::ZergFlyerArmorsLevel2,
        UpgradeKind::ZergMeleeWeaponsLevel3,
        UpgradeKind::ZergMissileWeaponsLevel3,
        UpgradeKind::ZergFlyerWeaponsLevel3,
        UpgradeKind::ZergGroundArmorsLevel3,
        UpgradeKind::ZergFlyerArmorsLevel3,
    ]
}

/// Whether an agent with these resources is rich in gas.
pub open spec fn is_gas_rich(minerals: u32, vespene: u32) -> bool {
    vespene > GAS_RICH_FLOOR && vespene > minerals / 3
}

/// Whether an agent with these resources has gas far beyond its minerals.
pub open spec fn is_gas_flooded(minerals: u32, vespene: u32) -> bool {
    is_gas_rich(minerals, vespene) && vespene > 2 * minerals
}

impl FlourishBot {
    /// The state is in order: the scheduler and the tracker are.
    pub open spec fn wf(&self) -> bool {
        self.build_scheduler.wf() && self.surveillance.wf()
    }

    /// Whether this is the state in which a session with the decay window
    /// `decay_window` starts.
    pub open spec fn is_fresh(&self, decay_window: u32) -> bool {
        &&& self.last_loop_distributed == 0
        &&& self.last_loop_upgraded == 0
        &&& !self.has_enough_gas
        &&& !self.has_way_too_much_gas
        &&& !self.has_enough_workers_for_gas
        &&& !self.attacking
        &&& self.upgrades_to_research@ == research_plan()
        &&& self.build_scheduler.backlog() == initial_backlog(research_plan())
        &&& self.surveillance@ == Threat::nothing(decay_window as int)
        &&& self.wf()
    }

    /// The state at the start of a session.
    pub fn new(decay_window: u32) -> (bot: FlourishBot)
        ensures
            bot.is_fresh(decay_window),
    {
        let upgrades_to_research = vec![
            UpgradeKind::Zerglingmovementspeed,
            UpgradeKind::ZergMeleeWeaponsLevel1,
            UpgradeKind::ZergMissileWeaponsLevel1,
            UpgradeKind::ZergFlyerWeaponsLevel1,
            UpgradeKind::ZergGroundArmorsLevel1,
            UpgradeKind::ZergFlyerArmorsLevel1,
            UpgradeKind::GlialReconstitution,
            UpgradeKind::TunnelingClaws,
            UpgradeKind::ZergMeleeWeaponsLevel2,
            UpgradeKind::ZergMissileWeaponsLevel2,
            UpgradeKind::ZergFlyerWeaponsLevel2,
            UpgradeKind::ZergGroundArmorsLevel2,
            UpgradeKind::ZergFlyerArmorsLevel2,
            UpgradeKind::ZergMeleeWeaponsLevel3,
            UpgradeKind::ZergMissileWeaponsLevel3,
            UpgradeKind::ZergFlyerWeaponsLevel3,
            UpgradeKind::ZergGroundArmorsLevel3,
            UpgradeKind::ZergFlyerArmorsLevel3,
        ];
        assert(upgrades_to_research@ =~= research_plan());
        FlourishBot {
            last_loop_distributed: 0,
            last_loop_upgraded: 0,
            has_enough_gas: false,
            has_way_too_much_gas: false,
            has_enough_workers_for_gas: false,
            attacking: false,
            surveillance: Surveillance::new(decay_window),
            build_scheduler: BuildScheduler::initialise(&upgrades_to_research),
            upgrades_to_research,
        }
    }

    /// Looks at the world once a tick: notes how rich in gas and in workers
    /// the agent is, and brings the threat tracker up to the tick.
    pub fn global_data(&mut self, snapshot: &Snapshot)
        requires
            old(self).surveillance.wf(),
        ensures
            final(self).has_enough_gas == is_gas_rich(snapshot.minerals, snapshot.vespene),
            final(self).has_way_too_much_gas == is_gas_flooded(snapshot.minerals, snapshot.vespene),
            final(self).has_enough_workers_for_gas == (snapshot.drones > WORKERS_BEFORE_GAS),
            final(self).surveillance@ == old(self).surveillance@.seen_all(
                snapshot.enemies@,
                snapshot.game_loop as int,
            ).decayed(snapshot.costs, snapshot.game_loop as int),
            final(self).surveillance.wf(),
            old(self).surveillance@.conserves(snapshot.costs) && all_agree(snapshot.enemies@, snapshot.costs)
                ==> final(self).surveillance@.conserves(snapshot.costs),
            final(self).build_scheduler == old(self).build_scheduler,
            final(self).upgrades_to_research == old(self).upgrades_to_research,
            final(self).last_loop_distributed == old(self).last_loop_distributed,
            final(self).last_loop_upgraded == old(self).last_loop_upgraded,
            final(self).attacking == old(self).attacking,
    {
        self.has_enough_gas = snapshot.vespene > GAS_RICH_FLOOR && snapshot.vespene > snapshot.minerals / 3;
        self.has_way_too_much_gas = self.has_enough_gas && snapshot.vespene as u64 > 2 * (
        snapshot.minerals as u64);
        self.has_enough_workers_for_gas = snapshot.drones > WORKERS_BEFORE_GAS;
        self.update_enemy_units(snapshot);
    }

    /// How many harvesters the agent wants on each gas building: none while
    /// workers are short, else the fewer the richer in gas it is.
    pub open spec fn gas_target(&self) -> u32 {
        if !self.has_enough_workers_for_gas {
            0
        } else if self.has_way_too_much_gas {
            1
        } else if self.has_enough_gas {
            2
        } else {
            3
        }
    }

    /// Computes [`FlourishBot::gas_target`].
    pub fn target_gas_workers(&self) -> (target: u32)
        ensures
            target == self.gas_target(),
    {
        if !self.has_enough_workers_for_gas {
            0
        } else if self.has_way_too_much_gas {
            1
        } else if self.has_enough_gas {
            2
        } else {
            3
        }
    }
}

impl Default for FlourishBot {
    /// The state at the start of a session with the decay window
    /// `DEFAULT_DECAY_WINDOW`.
    fn default() -> (bot: FlourishBot)
        ensures
            bot.is_fresh(DEFAULT_DECAY_WINDOW),
    {
        FlourishBot::new(DEFAULT_DECAY_WINDOW)
    }
}

} // verus!
