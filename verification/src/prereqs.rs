//! What each upgrade needs before its research can start.

use crate::flourish_bot::FlourishBot;
use crate::kinds::{UnitKind, UpgradeKind};
use crate::snapshot::Snapshot;
use vstd::prelude::*;

verus! {

/// The structure in which `upgrade` is researched, where the resolver knows
/// the upgrade.
pub open spec fn researched_in(upgrade: UpgradeKind) -> Option<UnitKind> {
    match upgrade {
        UpgradeKind::GlialReconstitution | UpgradeKind::TunnelingClaws => Some(UnitKind::RoachWarren),
        UpgradeKind::ChitinousPlating | UpgradeKind::AnabolicSynthesis => Some(UnitKind::UltraliskCavern),
        UpgradeKind::ZergMeleeWeaponsLevel1
        | UpgradeKind::ZergMeleeWeaponsLevel2
        | UpgradeKind::ZergMeleeWeaponsLevel3
        | UpgradeKind::ZergGroundArmorsLevel1
        | UpgradeKind::ZergGroundArmorsLevel2
        | UpgradeKind::ZergGroundArmorsLevel3
        | UpgradeKind::ZergMissileWeaponsLevel1
        | UpgradeKind::ZergMissileWeaponsLevel2
        | UpgradeKind::ZergMissileWeaponsLevel3 => Some(UnitKind::EvolutionChamber),
        UpgradeKind::Overlordspeed | UpgradeKind::Burrow => Some(UnitKind::Hatchery),
        UpgradeKind::Overlordtransport => Some(UnitKind::Lair),
        UpgradeKind::Zerglingattackspeed | UpgradeKind::Zerglingmovementspeed => Some(
            UnitKind::SpawningPool,
        ),
        UpgradeKind::Hydraliskspeed
        | UpgradeKind::HydraliskSpeedUpgrade
        | UpgradeKind::EvolveGroovedSpines
        | UpgradeKind::EvolveMuscularAugments => Some(UnitKind::HydraliskDen),
        UpgradeKind::ZergFlyerWeaponsLevel1
        | UpgradeKind::ZergFlyerWeaponsLevel2
        | UpgradeKind::ZergFlyerWeaponsLevel3
        | UpgradeKind::ZergFlyerArmorsLevel1
        | UpgradeKind::ZergFlyerArmorsLevel2
        | UpgradeKind::ZergFlyerArmorsLevel3 => Some(UnitKind::Spire),
        UpgradeKind::InfestorEnergyUpgrade
        | UpgradeKind::NeuralParasite
        | UpgradeKind::LocustLifetimeIncrease => Some(UnitKind::InfestationPit),
        UpgradeKind::CentrificalHooks => Some(UnitKind::BanelingNest),
        UpgradeKind::LurkerRange => Some(UnitKind::LurkerDen),
        UpgradeKind::Other(_) => None,
    }
}

/// The structures that the agent must own before `upgrade` can be
/// researched: the second or third stage of the base for some, nothing for
/// the rest.
pub open spec fn structures_needed(upgrade: UpgradeKind) -> Seq<UnitKind> {
    match upgrade {
        UpgradeKind::GlialReconstitution
        | UpgradeKind::TunnelingClaws
        | UpgradeKind::ZergMeleeWeaponsLevel2
        | UpgradeKind::ZergGroundArmorsLevel2
        | UpgradeKind::ZergMissileWeaponsLevel2
        | UpgradeKind::Hydraliskspeed
        | UpgradeKind::ZergFlyerWeaponsLevel2
        | UpgradeKind::ZergFlyerArmorsLevel2
        | UpgradeKind::CentrificalHooks
        | UpgradeKind::AnabolicSynthesis
        | UpgradeKind::HydraliskSpeedUpgrade
        | UpgradeKind::EvolveMuscularAugments => seq![UnitKind::Lair],
        UpgradeKind::ZergMeleeWeaponsLevel3
        | UpgradeKind::ZergGroundArmorsLevel3
        | UpgradeKind::ZergMissileWeaponsLevel3
        | UpgradeKind::Zerglingattackspeed
        | UpgradeKind::ZergFlyerWeaponsLevel3
        | UpgradeKind::ZergFlyerArmorsLevel3
        | UpgradeKind::LurkerRange => seq![UnitKind::Hive],
        _ => Seq::empty(),
    }
}

/// The upgrades that must be complete before `upgrade` can be researched:
/// for the second and third level of a line the level below it, but for the
/// third level of the missile weapons the second level of the ground armor.
pub open spec fn upgrades_needed(upgrade: UpgradeKind) -> Seq<UpgradeKind> {
    match upgrade {
        UpgradeKind::ZergMeleeWeaponsLevel2 => seq![UpgradeKind::ZergMeleeWeaponsLevel1],
        UpgradeKind::ZergMeleeWeaponsLevel3 => seq![UpgradeKind::ZergMeleeWeaponsLevel2],
        UpgradeKind::ZergGroundArmorsLevel2 => seq![UpgradeKind::ZergGroundArmorsLevel1],
        UpgradeKind::ZergGroundArmorsLevel3 => seq![UpgradeKind::ZergGroundArmorsLevel2],
        UpgradeKind::ZergMissileWeaponsLevel2 => seq![UpgradeKind::ZergMissileWeaponsLevel1],
        UpgradeKind::ZergMissileWeaponsLevel3 => seq![UpgradeKind::ZergGroundArmorsLevel2],
        UpgradeKind::ZergFlyerWeaponsLevel2 => seq![UpgradeKind::ZergFlyerWeaponsLevel1],
        UpgradeKind::ZergFlyerWeaponsLevel3 => seq![UpgradeKind::ZergFlyerWeaponsLevel2],
        UpgradeKind::ZergFlyerArmorsLevel2 => seq![UpgradeKind::ZergFlyerArmorsLevel1],
        UpgradeKind::ZergFlyerArmorsLevel3 => seq![UpgradeKind::ZergFlyerArmorsLevel2],
        _ => Seq::empty(),
    }
}

/// Whether `entry` is what the table holds for `upgrade`.
pub open spec fn is_entry_of(
    upgrade: UpgradeKind,
    entry: Option<(UnitKind, Vec<UnitKind>, Vec<UpgradeKind>)>,
) -> bool {
    match entry {
        Some((structure, structures, upgrades)) => {
            &&& researched_in(upgrade) == Some(structure)
            &&& structures@ == structures_needed(upgrade)
            &&& upgrades@ == upgrades_needed(upgrade)
        },
        None => researched_in(upgrade) is None,
    }
}

/// Takes an upgrade and returns the structure it is researched in, and the
/// structures and upgrades that must be complete before the research can
/// start; `None` for an upgrade that the resolver does not know.
pub fn upgrade_prereqs(upgrade: UpgradeKind) -> (entry: Option<(UnitKind, Vec<UnitKind>, Vec<UpgradeKind>)>)
    ensures
        is_entry_of(upgrade, entry),
{
    let entry = match upgrade {
        UpgradeKind::GlialReconstitution => Some((UnitKind::RoachWarren, vec![UnitKind::Lair], vec![])),
        UpgradeKind::TunnelingClaws => Some((UnitKind::RoachWarren, vec![UnitKind::Lair], vec![])),
        UpgradeKind::ChitinousPlating => Some((UnitKind::UltraliskCavern, vec![], vec![])),
        UpgradeKind::ZergMeleeWeaponsLevel1 => Some((UnitKind::EvolutionChamber, vec![], vec![])),
        UpgradeKind::ZergMeleeWeaponsLevel2 => Some(
            (UnitKind::EvolutionChamber, vec![UnitKind::Lair], vec![UpgradeKind::ZergMeleeWeaponsLevel1]),
        ),
        UpgradeKind::ZergMeleeWeaponsLevel3 => Some(
            (UnitKind::EvolutionChamber, vec![UnitKind::Hive], vec![UpgradeKind::ZergMeleeWeaponsLevel2]),
        ),
        UpgradeKind::ZergGroundArmorsLevel1 => Some((UnitKind::EvolutionChamber, vec![], vec![])),
        UpgradeKind::ZergGroundArmorsLevel2 => Some(
            (UnitKind::EvolutionChamber, vec![UnitKind::Lair], vec![UpgradeKind::ZergGroundArmorsLevel1]),
        ),
        UpgradeKind::ZergGroundArmorsLevel3 => Some(
            (UnitKind::EvolutionChamber, vec![UnitKind::Hive], vec![UpgradeKind::ZergGroundArmorsLevel2]),
        ),
        UpgradeKind::ZergMissileWeaponsLevel1 => Some((UnitKind::EvolutionChamber, vec![], vec![])),
        UpgradeKind::ZergMissileWeaponsLevel2 => Some(
            (UnitKind::EvolutionChamber, vec![UnitKind::Lair], vec![UpgradeKind::ZergMissileWeaponsLevel1]),
        ),
        UpgradeKind::ZergMissileWeaponsLevel3 => Some(
            (UnitKind::EvolutionChamber, vec![UnitKind::Hive], vec![UpgradeKind::ZergGroundArmorsLevel2]),
        ),
        UpgradeKind::Overlordspeed => Some((UnitKind::Hatchery, vec![], vec![])),
        UpgradeKind::Overlordtransport => Some((UnitKind::Lair, vec![], vec![])),
        UpgradeKind::Burrow => Some((UnitKind::Hatchery, vec![], vec![])),
        UpgradeKind::Zerglingattackspeed => Some((UnitKind::SpawningPool, vec![UnitKind::Hive], vec![])),
        UpgradeKind::Zerglingmovementspeed => Some((UnitKind::SpawningPool, vec![], vec![])),
        UpgradeKind::Hydraliskspeed => Some((UnitKind::HydraliskDen, vec![UnitKind::Lair], vec![])),
        UpgradeKind::ZergFlyerWeaponsLevel1 => Some((UnitKind::Spire, vec![], vec![])),
        UpgradeKind::ZergFlyerWeaponsLevel2 => Some(
            (UnitKind::Spire, vec![UnitKind::Lair], vec![UpgradeKind::ZergFlyerWeaponsLevel1]),
        ),
        UpgradeKind::ZergFlyerWeaponsLevel3 => Some(
            (UnitKind::Spire, vec![UnitKind::Hive], vec![UpgradeKind::ZergFlyerWeaponsLevel2]),
        ),
        UpgradeKind::ZergFlyerArmorsLevel1 => Some((UnitKind::Spire, vec![], vec![])),
        UpgradeKind::ZergFlyerArmorsLevel2 => Some(
            (UnitKind::Spire, vec![UnitKind::Lair], vec![UpgradeKind::ZergFlyerArmorsLevel1]),
        ),
        UpgradeKind::ZergFlyerArmorsLevel3 => Some(
            (UnitKind::Spire, vec![UnitKind::Hive], vec![UpgradeKind::ZergFlyerArmorsLevel2]),
        ),
        UpgradeKind::InfestorEnergyUpgrade => Some((UnitKind::InfestationPit, vec![], vec![])),
        UpgradeKind::CentrificalHooks => Some((UnitKind::BanelingNest, vec![UnitKind::Lair], vec![])),
        UpgradeKind::AnabolicSynthesis => Some((UnitKind::UltraliskCavern, vec![UnitKind::Lair], vec![])),
        UpgradeKind::HydraliskSpeedUpgrade => Some((UnitKind::HydraliskDen, vec![UnitKind::Lair], vec![])),
        UpgradeKind::NeuralParasite => Some((UnitKind::InfestationPit, vec![], vec![])),
        UpgradeKind::LocustLifetimeIncrease => Some((UnitKind::InfestationPit, vec![], vec![])),
        UpgradeKind::LurkerRange => Some((UnitKind::LurkerDen, vec![UnitKind::Hive], vec![])),
        UpgradeKind::EvolveGroovedSpines => Some((UnitKind::HydraliskDen, vec![], vec![])),
        UpgradeKind::EvolveMuscularAugments => Some((UnitKind::HydraliskDen, vec![UnitKind::Lair], vec![])),
        UpgradeKind::Other(_) => None,
    };
    proof {
        if entry is Some {
            assert((entry->0).1@ =~= structures_needed(upgrade));
            assert((entry->0).2@ =~= upgrades_needed(upgrade));
        }
    }
    entry
}

/// Whether the agent owns a structure of the kind `kind`.
pub open spec fn owns_structure(snapshot: Snapshot, kind: UnitKind) -> bool {
    exists|i: int| 0 <= i < snapshot.structures@.len() && (#[trigger] snapshot.structures@[i]).kind == kind
}

/// Whether the agent owns the upgrade `upgrade`: its research is complete.
pub open spec fn owns_upgrade(snapshot: Snapshot, upgrade: UpgradeKind) -> bool {
    snapshot.upgrades@.contains(upgrade)
}

/// Whether the agent owns a structure of each kind in `structures` and every
/// upgrade in `upgrades`.
pub open spec fn prereqs_met(snapshot: Snapshot, structures: Seq<UnitKind>, upgrades: Seq<UpgradeKind>) -> bool {
    &&& forall|i: int| 0 <= i < structures.len() ==> owns_structure(snapshot, #[trigger] structures[i])
    &&& forall|i: int| 0 <= i < upgrades.len() ==> owns_upgrade(snapshot, #[trigger] upgrades[i])
}

/// Whether `upgrade` is among `upgrades`.
pub fn contains_upgrade(upgrades: &Vec<UpgradeKind>, upgrade: UpgradeKind) -> (found: bool)
    ensures
        found == upgrades@.contains(upgrade),
{
    let mut i: usize = 0;
    while i < upgrades.len()
        invariant
            i <= upgrades@.len(),
            forall|k: int| 0 <= k < i ==> upgrades@[k] != upgrade,
        decreases upgrades@.len() - i,
    {
        if upgrades[i] == upgrade {
            return true;
        }
        i += 1;
    }
    false
}

impl FlourishBot {
    /// Whether the agent owns every structure and every upgrade that is
    /// asked for.
    pub fn has_prereqs(&self, snapshot: &Snapshot, structures: Vec<UnitKind>, upgrades: Vec<UpgradeKind>) -> (met:
        bool)
        ensures
            met == prereqs_met(*snapshot, structures@, upgrades@),
    {
        let mut i: usize = 0;
        while i < structures.len()
            invariant
                i <= structures@.len(),
                forall|k: int| 0 <= k < i ==> owns_structure(*snapshot, #[trigger] structures@[k]),
            decreases structures@.len() - i,
        {
            if !self.has_prereq(snapshot, structures[i]) {
                return false;
            }
            i += 1;
        }
        let mut j: usize = 0;
        while j < upgrades.len()
            invariant
                j <= upgrades@.len(),
                forall|k: int| 0 <= k < structures@.len() ==> owns_structure(*snapshot, #[trigger] structures@[k]),
                forall|k: int| 0 <= k < j ==> owns_upgrade(*snapshot, #[trigger] upgrades@[k]),
            decreases upgrades@.len() - j,
        {
            if !contains_upgrade(&snapshot.upgrades, upgrades[j]) {
                return false;
            }
            j += 1;
        }
        true
    }

    /// Whether the agent owns a structure of the kind `structure`.
    pub fn has_prereq(&self, snapshot: &Snapshot, structure: UnitKind) -> (owned: bool)
        ensures
            owned == owns_structure(*snapshot, structure),
    {
        let mut i: usize = 0;
        while i < snapshot.structures.len()
            invariant
                i <= snapshot.structures@.len(),
                forall|k: int| 0 <= k < i ==> (#[trigger] snapshot.structures@[k]).kind != structure,
            decreases snapshot.structures@.len() - i,
        {
            if snapshot.structures[i].kind == structure {
                return true;
            }
            i += 1;
        }
        false
    }
}

} // verus!
