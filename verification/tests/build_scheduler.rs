use flourish_sc2::build_scheduler::{
    BuildScheduler, FRONTLINE_BEHIND, FRONTLINE_LEVEL, MID_TIER_BEHIND, MID_TIER_BEHIND_WANTED,
    MID_TIER_LEVEL, MID_TIER_LEVEL_WANTED, UPGRADE_PRIORITY,
};
use flourish_sc2::flourish_bot::{FlourishBot, DEFAULT_DECAY_WINDOW};
use flourish_sc2::kinds::{Buildable, UnitKind, UpgradeKind};
use flourish_sc2::snapshot::{EnemyUnit, Snapshot};

fn roach() -> Buildable {
    Buildable::Unit(UnitKind::Roach)
}

fn zergling() -> Buildable {
    Buildable::Unit(UnitKind::Zergling)
}

#[test]
fn the_backlog_starts_with_units_at_zero_and_upgrades_at_forty() {
    let s = BuildScheduler::initialise(&vec![UpgradeKind::Burrow, UpgradeKind::LurkerRange]);
    for kind in [
        UnitKind::Drone,
        UnitKind::Zergling,
        UnitKind::Roach,
        UnitKind::Overlord,
        UnitKind::Hatchery,
        UnitKind::Lair,
        UnitKind::Hive,
        UnitKind::SpawningPool,
        UnitKind::EvolutionChamber,
        UnitKind::RoachWarren,
        UnitKind::Extractor,
    ] {
        assert_eq!(s.priority_of(Buildable::Unit(kind)), Some(0));
    }
    assert_eq!(s.priority_of(Buildable::Upgrade(UpgradeKind::Burrow)), Some(40));
    assert_eq!(s.priority_of(Buildable::Upgrade(UpgradeKind::LurkerRange)), Some(UPGRADE_PRIORITY));
    assert_eq!(s.priority_of(Buildable::Upgrade(UpgradeKind::TunnelingClaws)), None);
    assert_eq!(s.priority_of(Buildable::Unit(UnitKind::Spire)), None);
    assert_eq!(s.priority_of(Buildable::Unit(UnitKind::Other(0))), None);
}

#[test]
fn a_unit_and_an_upgrade_of_the_same_code_are_kept_apart() {
    let s = BuildScheduler::initialise(&vec![UpgradeKind::GlialReconstitution]);
    assert_eq!(s.priority_of(Buildable::Unit(UnitKind::Drone)), Some(0));
    assert_eq!(s.priority_of(Buildable::Upgrade(UpgradeKind::GlialReconstitution)), Some(40));
    assert_eq!(s.priority_of(Buildable::Upgrade(UpgradeKind::TunnelingClaws)), None);
}

#[test]
fn an_upgrade_named_twice_is_in_the_backlog_once() {
    let s = BuildScheduler::initialise(&vec![UpgradeKind::Burrow, UpgradeKind::Burrow]);
    assert_eq!(s.priority_of(Buildable::Upgrade(UpgradeKind::Burrow)), Some(40));
}

#[test]
fn the_top_of_a_fresh_backlog_is_an_upgrade() {
    let s = BuildScheduler::initialise(&vec![UpgradeKind::Burrow]);
    assert_eq!(s.top(), Some((Buildable::Upgrade(UpgradeKind::Burrow), 40)));
    let bare = BuildScheduler::initialise(&vec![]);
    let (_, priority) = bare.top().unwrap();
    assert_eq!(priority, 0);
}

#[test]
fn change_priority_sets_what_is_there_and_adds_nothing() {
    let mut s = BuildScheduler::initialise(&vec![]);
    s.change_priority(roach(), 77);
    assert_eq!(s.priority_of(roach()), Some(77));
    assert_eq!(s.top(), Some((roach(), 77)));
    s.change_priority(Buildable::Unit(UnitKind::Spire), 500);
    assert_eq!(s.priority_of(Buildable::Unit(UnitKind::Spire)), None);
    assert_eq!(s.top(), Some((roach(), 77)));
    s.change_priority(roach(), -5);
    assert_eq!(s.priority_of(roach()), Some(-5));
}

#[test]
fn change_priority_twice_is_change_priority_once() {
    let mut once = BuildScheduler::initialise(&vec![UpgradeKind::Burrow]);
    let mut twice = BuildScheduler::initialise(&vec![UpgradeKind::Burrow]);
    once.change_priority(zergling(), 60);
    twice.change_priority(zergling(), 60);
    twice.change_priority(zergling(), 60);
    assert_eq!(once.priority_of(zergling()), twice.priority_of(zergling()));
    assert_eq!(once.top(), twice.top());
    assert_eq!(twice.priority_of(roach()), Some(0));
}

#[test]
fn behind_and_short_of_roaches_gives_the_higher_roach_tier() {
    // own army 10, enemy army 15, one roach to three zerglings
    let mut s = BuildScheduler::initialise(&vec![UpgradeKind::Burrow]);
    s.reweight(10, 15, 1, 3);
    assert_eq!(s.priority_of(roach()), Some(150));
    assert_eq!(s.priority_of(zergling()), Some(100));
    assert_eq!(s.top(), Some((roach(), MID_TIER_BEHIND_WANTED)));
}

#[test]
fn behind_with_enough_roaches_gives_the_lower_roach_tier() {
    let mut s = BuildScheduler::initialise(&vec![UpgradeKind::Burrow]);
    s.reweight(10, 15, 2, 4);
    assert_eq!(s.priority_of(roach()), Some(90));
    assert_eq!(s.priority_of(zergling()), Some(100));
    assert_eq!(s.top(), Some((zergling(), FRONTLINE_BEHIND)));
    assert_eq!(MID_TIER_BEHIND, 90);
}

#[test]
fn level_armies_give_the_low_priorities() {
    let mut s = BuildScheduler::initialise(&vec![UpgradeKind::Burrow]);
    s.reweight(15, 15, 0, 1);
    assert_eq!(s.priority_of(roach()), Some(MID_TIER_LEVEL_WANTED));
    assert_eq!(s.priority_of(roach()), Some(15));
    assert_eq!(s.priority_of(zergling()), Some(FRONTLINE_LEVEL));
    assert_eq!(s.priority_of(zergling()), Some(10));
    s.reweight(20, 15, 1, 2);
    assert_eq!(s.priority_of(roach()), Some(MID_TIER_LEVEL));
    assert_eq!(s.priority_of(roach()), Some(9));
    assert_eq!(s.top(), Some((Buildable::Upgrade(UpgradeKind::Burrow), 40)));
}

#[test]
fn reweighting_leaves_the_rest_of_the_backlog() {
    let mut s = BuildScheduler::initialise(&vec![UpgradeKind::Burrow]);
    s.reweight(0, 1, 0, 0);
    assert_eq!(s.priority_of(Buildable::Unit(UnitKind::Drone)), Some(0));
    assert_eq!(s.priority_of(Buildable::Upgrade(UpgradeKind::Burrow)), Some(40));
    assert_eq!(s.priority_of(Buildable::Unit(UnitKind::Spire)), None);
}

#[test]
fn large_counts_do_not_overflow_the_ratio() {
    let mut s = BuildScheduler::initialise(&vec![]);
    s.reweight(0, 1, u32::MAX, u32::MAX);
    assert_eq!(s.priority_of(roach()), Some(90));
    s.reweight(0, 1, u32::MAX / 2, u32::MAX);
    assert_eq!(s.priority_of(roach()), Some(150));
}

#[test]
fn the_core_reweights_from_the_tracker() {
    let mut bot = FlourishBot::new(9000);
    let mut snapshot = Snapshot::empty(5);
    snapshot.supply_army = 10;
    snapshot.roaches = 0;
    snapshot.zerglings = 4;
    bot.update_military_priority(&snapshot);
    assert_eq!(bot.build_scheduler.priority_of(zergling()), Some(10));
    assert_eq!(bot.build_scheduler.priority_of(roach()), Some(15));

    // fifteen supply points of enemy army come in sight
    for tag in 0..15 {
        bot.surveillance.observe(
            &EnemyUnit { tag, kind: UnitKind::Other(48), supply_cost: 2, is_worker: false },
            5,
        );
    }
    assert_eq!(bot.surveillance.rounded_enemy_supply(), 15);
    bot.update_military_priority(&snapshot);
    assert_eq!(bot.build_scheduler.priority_of(zergling()), Some(100));
    assert_eq!(bot.build_scheduler.priority_of(roach()), Some(150));
}

#[test]
fn a_fresh_core_is_as_the_session_starts() {
    let bot = FlourishBot::default();
    assert_eq!(bot.last_loop_distributed, 0);
    assert_eq!(bot.last_loop_upgraded, 0);
    assert!(!bot.has_enough_gas);
    assert!(!bot.has_way_too_much_gas);
    assert!(!bot.has_enough_workers_for_gas);
    assert!(!bot.attacking);
    assert_eq!(bot.upgrades_to_research.len(), 18);
    assert_eq!(bot.upgrades_to_research[0], UpgradeKind::Zerglingmovementspeed);
    assert_eq!(bot.upgrades_to_research[1], UpgradeKind::ZergMeleeWeaponsLevel1);
    assert_eq!(bot.upgrades_to_research[7], UpgradeKind::TunnelingClaws);
    assert_eq!(bot.upgrades_to_research[17], UpgradeKind::ZergFlyerArmorsLevel3);
    for upgrade in &bot.upgrades_to_research {
        assert_eq!(bot.build_scheduler.priority_of(Buildable::Upgrade(*upgrade)), Some(40));
    }
    assert_eq!(bot.build_scheduler.priority_of(Buildable::Upgrade(UpgradeKind::Burrow)), None);
    assert_eq!(bot.surveillance.known_units(), 0);
    assert_eq!(bot.target_gas_workers(), 0);
    assert_eq!(DEFAULT_DECAY_WINDOW, 4032);
}
