use flourish_sc2::costs::{Cost, CostTable};
use flourish_sc2::flourish_bot::FlourishBot;
use flourish_sc2::kinds::{UnitKind, UpgradeKind};
use flourish_sc2::snapshot::Snapshot;

fn world() -> Snapshot {
    let mut snapshot = Snapshot::empty(0);
    snapshot.minerals = 300;
    snapshot.vespene = 100;
    snapshot.supply_left = 1;
    snapshot.costs.set_unit_cost(UnitKind::Roach, Cost { minerals: 75, vespene: 25, supply: 4 });
    snapshot.costs.set_unit_cost(UnitKind::Zergling, Cost { minerals: 50, vespene: 0, supply: 2 });
    snapshot.costs.set_unit_cost(UnitKind::Lair, Cost { minerals: 150, vespene: 100, supply: 0 });
    snapshot
}

#[test]
fn the_catalog_gives_what_was_listed_and_nothing_for_the_rest() {
    let mut costs = CostTable::new();
    let free = Cost { minerals: 0, vespene: 0, supply: 0 };
    assert_eq!(costs.get_unit_cost(UnitKind::Roach), free);
    assert_eq!(costs.get_upgrade_cost(UpgradeKind::Burrow), free);
    costs.set_unit_cost(UnitKind::Roach, Cost { minerals: 75, vespene: 25, supply: 4 });
    costs.set_upgrade_cost(UpgradeKind::ChitinousPlating, Cost { minerals: 150, vespene: 150, supply: 0 });
    assert_eq!(costs.get_unit_cost(UnitKind::Roach), Cost { minerals: 75, vespene: 25, supply: 4 });
    // the roach and the plating have the same code, each in its own table
    assert_eq!(costs.get_upgrade_cost(UpgradeKind::ChitinousPlating).minerals, 150);
    assert_eq!(costs.get_unit_cost(UnitKind::Zergling), free);
    costs.set_unit_cost(UnitKind::Roach, Cost { minerals: 80, vespene: 25, supply: 4 });
    assert_eq!(costs.get_unit_cost(UnitKind::Roach).minerals, 80);
    costs.set_unit_cost(UnitKind::Other(7), Cost { minerals: 1, vespene: 2, supply: 3 });
    assert_eq!(costs.get_unit_cost(UnitKind::Other(7)), Cost { minerals: 1, vespene: 2, supply: 3 });
    assert_eq!(costs.get_unit_cost(UnitKind::Other(8)), free);
}

#[test]
fn a_buffer_has_to_be_left_over() {
    let bot = FlourishBot::default();
    let snapshot = world();
    assert!(bot.can_afford_with_buffer(&snapshot, UnitKind::Roach, false, 225, 75));
    assert!(!bot.can_afford_with_buffer(&snapshot, UnitKind::Roach, false, 226, 75));
    assert!(!bot.can_afford_with_buffer(&snapshot, UnitKind::Roach, false, 225, 76));
    assert!(bot.can_afford_with_buffer(&snapshot, UnitKind::Roach, false, 0, 0));
    assert!(!bot.can_afford_with_buffer(&snapshot, UnitKind::Roach, false, u32::MAX, 0));
    assert!(!bot.can_afford_with_buffer(&snapshot, UnitKind::Roach, false, 0, u32::MAX));
}

#[test]
fn supply_is_asked_for_only_on_demand() {
    let bot = FlourishBot::default();
    let mut snapshot = world();
    // one free point holds a zergling pair of two halves, not a roach of four
    assert!(bot.can_afford_with_buffer(&snapshot, UnitKind::Zergling, true, 0, 0));
    assert!(!bot.can_afford_with_buffer(&snapshot, UnitKind::Roach, true, 0, 0));
    assert!(bot.can_afford_with_buffer(&snapshot, UnitKind::Roach, false, 0, 0));
    snapshot.supply_left = 2;
    assert!(bot.can_afford_with_buffer(&snapshot, UnitKind::Roach, true, 0, 0));
    assert!(bot.can_afford_multiple(&snapshot, UnitKind::Roach, true, 4));
    snapshot.supply_left = 0;
    assert!(!bot.can_afford_multiple(&snapshot, UnitKind::Zergling, true, 1));
    assert!(bot.can_afford_multiple(&snapshot, UnitKind::Lair, true, 1));
}

#[test]
fn several_units_cost_several_times_as_much() {
    let bot = FlourishBot::default();
    let snapshot = world();
    assert!(bot.can_afford_multiple(&snapshot, UnitKind::Roach, false, 4));
    assert!(!bot.can_afford_multiple(&snapshot, UnitKind::Roach, false, 5));
    assert!(bot.can_afford_multiple(&snapshot, UnitKind::Lair, false, 1));
    assert!(!bot.can_afford_multiple(&snapshot, UnitKind::Lair, false, 2));
    assert!(bot.can_afford_multiple(&snapshot, UnitKind::Zergling, false, 6));
    assert!(!bot.can_afford_multiple(&snapshot, UnitKind::Zergling, false, 7));
    assert!(bot.can_afford_multiple(&snapshot, UnitKind::Roach, false, 0));
    assert!(!bot.can_afford_multiple(&snapshot, UnitKind::Roach, false, u32::MAX));
    assert!(bot.can_afford_multiple(&snapshot, UnitKind::Hive, false, u32::MAX));
}
