use flourish_sc2::flourish_bot::FlourishBot;
use flourish_sc2::kinds::{Buildable, UnitKind, UpgradeKind};
use flourish_sc2::prereqs::{contains_upgrade, upgrade_prereqs};
use flourish_sc2::snapshot::{Snapshot, Structure};

#[test]
fn the_table_holds_the_first_levels_without_needs() {
    assert_eq!(
        upgrade_prereqs(UpgradeKind::ZergMeleeWeaponsLevel1),
        Some((UnitKind::EvolutionChamber, vec![], vec![]))
    );
    assert_eq!(upgrade_prereqs(UpgradeKind::Zerglingmovementspeed), Some((UnitKind::SpawningPool, vec![], vec![])));
    assert_eq!(upgrade_prereqs(UpgradeKind::Overlordspeed), Some((UnitKind::Hatchery, vec![], vec![])));
    assert_eq!(upgrade_prereqs(UpgradeKind::Overlordtransport), Some((UnitKind::Lair, vec![], vec![])));
    assert_eq!(upgrade_prereqs(UpgradeKind::ChitinousPlating), Some((UnitKind::UltraliskCavern, vec![], vec![])));
    assert_eq!(upgrade_prereqs(UpgradeKind::EvolveGroovedSpines), Some((UnitKind::HydraliskDen, vec![], vec![])));
    assert_eq!(upgrade_prereqs(UpgradeKind::NeuralParasite), Some((UnitKind::InfestationPit, vec![], vec![])));
}

#[test]
fn the_table_holds_the_higher_levels_with_their_needs() {
    assert_eq!(
        upgrade_prereqs(UpgradeKind::ZergMeleeWeaponsLevel2),
        Some((UnitKind::EvolutionChamber, vec![UnitKind::Lair], vec![UpgradeKind::ZergMeleeWeaponsLevel1]))
    );
    assert_eq!(
        upgrade_prereqs(UpgradeKind::ZergGroundArmorsLevel3),
        Some((UnitKind::EvolutionChamber, vec![UnitKind::Hive], vec![UpgradeKind::ZergGroundArmorsLevel2]))
    );
    assert_eq!(
        upgrade_prereqs(UpgradeKind::ZergFlyerArmorsLevel2),
        Some((UnitKind::Spire, vec![UnitKind::Lair], vec![UpgradeKind::ZergFlyerArmorsLevel1]))
    );
    assert_eq!(
        upgrade_prereqs(UpgradeKind::ZergFlyerWeaponsLevel3),
        Some((UnitKind::Spire, vec![UnitKind::Hive], vec![UpgradeKind::ZergFlyerWeaponsLevel2]))
    );
    assert_eq!(
        upgrade_prereqs(UpgradeKind::ZergMissileWeaponsLevel3),
        Some((UnitKind::EvolutionChamber, vec![UnitKind::Hive], vec![UpgradeKind::ZergGroundArmorsLevel2]))
    );
}

#[test]
fn the_table_holds_the_upgrades_that_need_a_later_base() {
    assert_eq!(upgrade_prereqs(UpgradeKind::GlialReconstitution), Some((UnitKind::RoachWarren, vec![UnitKind::Lair], vec![])));
    assert_eq!(upgrade_prereqs(UpgradeKind::TunnelingClaws), Some((UnitKind::RoachWarren, vec![UnitKind::Lair], vec![])));
    assert_eq!(upgrade_prereqs(UpgradeKind::Zerglingattackspeed), Some((UnitKind::SpawningPool, vec![UnitKind::Hive], vec![])));
    assert_eq!(upgrade_prereqs(UpgradeKind::LurkerRange), Some((UnitKind::LurkerDen, vec![UnitKind::Hive], vec![])));
    assert_eq!(upgrade_prereqs(UpgradeKind::CentrificalHooks), Some((UnitKind::BanelingNest, vec![UnitKind::Lair], vec![])));
    assert_eq!(upgrade_prereqs(UpgradeKind::AnabolicSynthesis), Some((UnitKind::UltraliskCavern, vec![UnitKind::Lair], vec![])));
}

#[test]
fn the_table_does_not_hold_what_the_resolver_does_not_know() {
    assert_eq!(upgrade_prereqs(UpgradeKind::Other(0)), None);
    assert_eq!(upgrade_prereqs(UpgradeKind::Other(15)), None);
}

#[test]
fn every_upgrade_of_the_plan_is_in_the_table() {
    let bot = FlourishBot::default();
    for upgrade in &bot.upgrades_to_research {
        assert!(upgrade_prereqs(*upgrade).is_some());
    }
}

fn with_structures(kinds: &[UnitKind]) -> Snapshot {
    let mut snapshot = Snapshot::empty(0);
    let mut tag = 100;
    for kind in kinds {
        snapshot.structures.push(Structure { tag, kind: *kind, active: true });
        tag += 1;
    }
    snapshot
}

#[test]
fn has_prereq_finds_a_structure_by_its_kind() {
    let bot = FlourishBot::default();
    let snapshot = with_structures(&[UnitKind::Hatchery, UnitKind::SpawningPool]);
    assert!(bot.has_prereq(&snapshot, UnitKind::Hatchery));
    assert!(bot.has_prereq(&snapshot, UnitKind::SpawningPool));
    assert!(!bot.has_prereq(&snapshot, UnitKind::Lair));
    assert!(!bot.has_prereq(&Snapshot::empty(0), UnitKind::Hatchery));
}

#[test]
fn has_prereqs_asks_for_every_structure_and_every_upgrade() {
    let bot = FlourishBot::default();
    let mut snapshot = with_structures(&[UnitKind::Lair, UnitKind::EvolutionChamber]);
    snapshot.upgrades = vec![UpgradeKind::ZergMeleeWeaponsLevel1];
    assert!(bot.has_prereqs(&snapshot, vec![], vec![]));
    assert!(bot.has_prereqs(&snapshot, vec![UnitKind::Lair], vec![UpgradeKind::ZergMeleeWeaponsLevel1]));
    assert!(bot.has_prereqs(&snapshot, vec![UnitKind::Lair, UnitKind::EvolutionChamber], vec![]));
    assert!(!bot.has_prereqs(&snapshot, vec![UnitKind::Hive], vec![UpgradeKind::ZergMeleeWeaponsLevel1]));
    assert!(!bot.has_prereqs(&snapshot, vec![UnitKind::Lair, UnitKind::Hive], vec![]));
    assert!(!bot.has_prereqs(&snapshot, vec![UnitKind::Lair], vec![UpgradeKind::ZergMeleeWeaponsLevel2]));
    assert!(!bot.has_prereqs(
        &snapshot,
        vec![],
        vec![UpgradeKind::ZergMeleeWeaponsLevel1, UpgradeKind::Burrow]
    ));
}

#[test]
fn contains_upgrade_looks_through_the_list() {
    let list = vec![UpgradeKind::Burrow, UpgradeKind::Other(3)];
    assert!(contains_upgrade(&list, UpgradeKind::Burrow));
    assert!(contains_upgrade(&list, UpgradeKind::Other(3)));
    assert!(!contains_upgrade(&list, UpgradeKind::Other(4)));
    assert!(!contains_upgrade(&vec![], UpgradeKind::Burrow));
}

#[test]
fn codes_and_keys_lead_back_to_what_they_stand_for() {
    for kind in [UnitKind::Drone, UnitKind::LurkerDen, UnitKind::Other(0), UnitKind::Other(u32::MAX)] {
        assert_eq!(UnitKind::from_code(kind.to_code()), Some(kind));
    }
    for kind in [
        UpgradeKind::GlialReconstitution,
        UpgradeKind::EvolveMuscularAugments,
        UpgradeKind::Other(0),
        UpgradeKind::Other(u32::MAX),
    ] {
        assert_eq!(UpgradeKind::from_code(kind.to_code()), Some(kind));
    }
    assert_eq!(UnitKind::from_code(17), None);
    assert_eq!(UnitKind::from_code(31), None);
    assert_eq!(UnitKind::from_code(32), Some(UnitKind::Other(0)));
    assert_eq!(UnitKind::from_code(32 + u32::MAX as u64 + 1), None);
    assert_eq!(UpgradeKind::from_code(33), None);
    assert_eq!(UpgradeKind::from_code(u64::MAX), None);
    assert_eq!(Buildable::Unit(UnitKind::Roach).to_key(), (0, 2));
    assert_eq!(Buildable::Upgrade(UpgradeKind::ChitinousPlating).to_key(), (1, 2));
    assert_eq!(Buildable::from_key((1, 2)), Some(Buildable::Upgrade(UpgradeKind::ChitinousPlating)));
    assert_eq!(Buildable::from_key((0, 2)), Some(Buildable::Unit(UnitKind::Roach)));
    assert_eq!(Buildable::from_key((2, 2)), None);
    assert_eq!(Buildable::from_key((0, 20)), None);
}
