use flourish_sc2::costs::Cost;
use flourish_sc2::flourish_bot::FlourishBot;
use flourish_sc2::kinds::{UnitKind, UpgradeKind};
use flourish_sc2::snapshot::{Snapshot, Structure};
use flourish_sc2::upgrades::{find_first_free, ResearchOrder, UPGRADE_DELAY};

fn price(minerals: u32, vespene: u32) -> Cost {
    Cost { minerals, vespene, supply: 0 }
}

fn world(game_loop: u32) -> Snapshot {
    let mut snapshot = Snapshot::empty(game_loop);
    snapshot.minerals = 1000;
    snapshot.vespene = 1000;
    snapshot.costs.set_upgrade_cost(UpgradeKind::Zerglingmovementspeed, price(100, 100));
    snapshot.costs.set_upgrade_cost(UpgradeKind::ZergMeleeWeaponsLevel1, price(100, 100));
    snapshot.costs.set_upgrade_cost(UpgradeKind::ZergMeleeWeaponsLevel2, price(150, 150));
    snapshot.costs.set_upgrade_cost(UpgradeKind::ZergMissileWeaponsLevel1, price(100, 100));
    snapshot.costs.set_upgrade_cost(UpgradeKind::GlialReconstitution, price(100, 100));
    snapshot
}

fn bot_with(pending: Vec<UpgradeKind>) -> FlourishBot {
    let mut bot = FlourishBot::new(9000);
    bot.upgrades_to_research = pending;
    bot
}

#[test]
fn the_resolver_waits_for_its_delay() {
    let mut bot = bot_with(vec![UpgradeKind::Zerglingmovementspeed]);
    let mut snapshot = world(UPGRADE_DELAY - 1);
    snapshot.structures = vec![Structure { tag: 5, kind: UnitKind::SpawningPool, active: false }];
    let pass = bot.upgrades(&snapshot);
    assert!(pass.orders.is_empty());
    assert_eq!((pass.minerals, pass.vespene), (1000, 1000));
    assert_eq!(bot.last_loop_upgraded, 0);

    snapshot.game_loop = 12;
    let pass = bot.upgrades(&snapshot);
    assert_eq!(pass.orders, vec![ResearchOrder { upgrade: UpgradeKind::Zerglingmovementspeed, structure: 5 }]);
    assert_eq!((pass.minerals, pass.vespene), (900, 900));
    assert_eq!(bot.last_loop_upgraded, 12);

    snapshot.game_loop = 23;
    let pass = bot.upgrades(&snapshot);
    assert!(pass.orders.is_empty());
    assert_eq!(bot.last_loop_upgraded, 12);
    snapshot.game_loop = 24;
    let pass = bot.upgrades(&snapshot);
    assert_eq!(pass.orders.len(), 1);
    assert_eq!(bot.last_loop_upgraded, 24);
}

#[test]
fn a_late_last_run_does_not_overflow_the_delay() {
    let mut bot = bot_with(vec![]);
    bot.last_loop_upgraded = u32::MAX - 3;
    let pass = bot.upgrades(&world(u32::MAX));
    assert!(pass.orders.is_empty());
    assert_eq!(bot.last_loop_upgraded, u32::MAX - 3);
}

#[test]
fn owned_upgrades_leave_the_pending_list() {
    let mut bot = bot_with(vec![
        UpgradeKind::Zerglingmovementspeed,
        UpgradeKind::ZergMeleeWeaponsLevel1,
        UpgradeKind::GlialReconstitution,
        UpgradeKind::ZergMeleeWeaponsLevel1,
    ]);
    let mut snapshot = world(100);
    snapshot.upgrades = vec![UpgradeKind::ZergMeleeWeaponsLevel1, UpgradeKind::Burrow];
    let pass = bot.upgrades(&snapshot);
    assert!(pass.orders.is_empty());
    assert_eq!(
        bot.upgrades_to_research,
        vec![UpgradeKind::Zerglingmovementspeed, UpgradeKind::GlialReconstitution]
    );
}

#[test]
fn an_upgrade_that_left_does_not_come_back() {
    let mut bot = bot_with(vec![UpgradeKind::Zerglingmovementspeed, UpgradeKind::ZergMeleeWeaponsLevel1]);
    let mut snapshot = world(100);
    snapshot.upgrades = vec![UpgradeKind::Zerglingmovementspeed];
    bot.upgrades(&snapshot);
    assert_eq!(bot.upgrades_to_research, vec![UpgradeKind::ZergMeleeWeaponsLevel1]);
    // the host no longer reports the upgrade; the list stays as it is
    let mut later = world(200);
    later.workers = vec![];
    bot.upgrades(&later);
    bot.distribute_workers(&later);
    bot.global_data(&later);
    bot.update_military_priority(&later);
    assert_eq!(bot.upgrades_to_research, vec![UpgradeKind::ZergMeleeWeaponsLevel1]);
}

#[test]
fn research_goes_to_the_first_free_structure_of_the_kind() {
    let mut bot = bot_with(vec![UpgradeKind::ZergMeleeWeaponsLevel1]);
    let mut snapshot = world(100);
    snapshot.structures = vec![
        Structure { tag: 1, kind: UnitKind::SpawningPool, active: false },
        Structure { tag: 2, kind: UnitKind::EvolutionChamber, active: true },
        Structure { tag: 3, kind: UnitKind::EvolutionChamber, active: false },
        Structure { tag: 4, kind: UnitKind::EvolutionChamber, active: false },
    ];
    let pass = bot.upgrades(&snapshot);
    assert_eq!(pass.orders, vec![ResearchOrder { upgrade: UpgradeKind::ZergMeleeWeaponsLevel1, structure: 3 }]);
    assert_eq!(bot.upgrades_to_research, vec![UpgradeKind::ZergMeleeWeaponsLevel1]);
    assert_eq!(find_first_free(&snapshot.structures, UnitKind::EvolutionChamber), Some(2));
    assert_eq!(find_first_free(&snapshot.structures, UnitKind::Spire), None);
}

#[test]
fn research_waits_while_every_structure_is_busy() {
    let mut bot = bot_with(vec![UpgradeKind::ZergMeleeWeaponsLevel1]);
    let mut snapshot = world(100);
    snapshot.structures = vec![Structure { tag: 2, kind: UnitKind::EvolutionChamber, active: true }];
    let pass = bot.upgrades(&snapshot);
    assert!(pass.orders.is_empty());
    assert_eq!((pass.minerals, pass.vespene), (1000, 1000));
    assert_eq!(bot.upgrades_to_research, vec![UpgradeKind::ZergMeleeWeaponsLevel1]);
}

#[test]
fn research_waits_for_what_the_upgrade_needs() {
    let mut bot = bot_with(vec![UpgradeKind::ZergMeleeWeaponsLevel2, UpgradeKind::GlialReconstitution]);
    let mut snapshot = world(100);
    snapshot.structures = vec![
        Structure { tag: 2, kind: UnitKind::EvolutionChamber, active: false },
        Structure { tag: 3, kind: UnitKind::RoachWarren, active: false },
    ];
    // no lair
    assert!(bot.upgrades(&snapshot).orders.is_empty());
    // a lair, but the first level is missing
    snapshot.game_loop = 200;
    snapshot.structures.push(Structure { tag: 4, kind: UnitKind::Lair, active: true });
    let pass = bot.upgrades(&snapshot);
    assert_eq!(pass.orders, vec![ResearchOrder { upgrade: UpgradeKind::GlialReconstitution, structure: 3 }]);
    // the first level is there
    snapshot.game_loop = 300;
    snapshot.upgrades = vec![UpgradeKind::ZergMeleeWeaponsLevel1];
    let pass = bot.upgrades(&snapshot);
    assert_eq!(pass.orders[0], ResearchOrder { upgrade: UpgradeKind::ZergMeleeWeaponsLevel2, structure: 2 });
    assert_eq!(pass.orders.len(), 2);
    assert_eq!((pass.minerals, pass.vespene), (750, 750));
}

#[test]
fn research_that_is_under_way_is_not_ordered_again() {
    let mut bot = bot_with(vec![UpgradeKind::Zerglingmovementspeed]);
    let mut snapshot = world(100);
    snapshot.structures = vec![Structure { tag: 5, kind: UnitKind::SpawningPool, active: false }];
    snapshot.ordered_upgrades = vec![UpgradeKind::Zerglingmovementspeed];
    assert!(bot.upgrades(&snapshot).orders.is_empty());
    assert_eq!(bot.upgrades_to_research, vec![UpgradeKind::Zerglingmovementspeed]);
}

#[test]
fn research_is_paid_before_the_next_upgrade_is_looked_at() {
    let mut bot = bot_with(vec![
        UpgradeKind::ZergMeleeWeaponsLevel1,
        UpgradeKind::ZergMissileWeaponsLevel1,
        UpgradeKind::Zerglingmovementspeed,
    ]);
    let mut snapshot = world(100);
    snapshot.minerals = 250;
    snapshot.vespene = 199;
    snapshot.structures = vec![
        Structure { tag: 2, kind: UnitKind::EvolutionChamber, active: false },
        Structure { tag: 5, kind: UnitKind::SpawningPool, active: false },
    ];
    let pass = bot.upgrades(&snapshot);
    // the second cannot be paid from what the first left: 99 vespene
    assert_eq!(pass.orders, vec![ResearchOrder { upgrade: UpgradeKind::ZergMeleeWeaponsLevel1, structure: 2 }]);
    assert_eq!((pass.minerals, pass.vespene), (150, 99));
}

#[test]
fn research_that_costs_all_there_is_can_be_paid() {
    let mut bot = bot_with(vec![UpgradeKind::Zerglingmovementspeed]);
    let mut snapshot = world(100);
    snapshot.minerals = 100;
    snapshot.vespene = 100;
    snapshot.structures = vec![Structure { tag: 5, kind: UnitKind::SpawningPool, active: false }];
    let pass = bot.upgrades(&snapshot);
    assert_eq!(pass.orders.len(), 1);
    assert_eq!((pass.minerals, pass.vespene), (0, 0));
    snapshot.game_loop = 200;
    snapshot.minerals = 99;
    assert!(bot.upgrades(&snapshot).orders.is_empty());
}

#[test]
fn an_upgrade_that_the_resolver_does_not_know_stays_pending_unordered() {
    let mut bot = bot_with(vec![UpgradeKind::Other(15), UpgradeKind::Zerglingmovementspeed]);
    let mut snapshot = world(100);
    snapshot.structures = vec![Structure { tag: 5, kind: UnitKind::SpawningPool, active: false }];
    let pass = bot.upgrades(&snapshot);
    assert_eq!(pass.orders, vec![ResearchOrder { upgrade: UpgradeKind::Zerglingmovementspeed, structure: 5 }]);
    assert_eq!(bot.upgrades_to_research, vec![UpgradeKind::Other(15), UpgradeKind::Zerglingmovementspeed]);
}

#[test]
fn one_free_structure_takes_every_order_of_a_run() {
    let mut bot = bot_with(vec![UpgradeKind::ZergMeleeWeaponsLevel1, UpgradeKind::ZergMissileWeaponsLevel1]);
    let mut snapshot = world(100);
    snapshot.structures = vec![Structure { tag: 2, kind: UnitKind::EvolutionChamber, active: false }];
    let pass = bot.upgrades(&snapshot);
    assert_eq!(
        pass.orders,
        vec![
            ResearchOrder { upgrade: UpgradeKind::ZergMeleeWeaponsLevel1, structure: 2 },
            ResearchOrder { upgrade: UpgradeKind::ZergMissileWeaponsLevel1, structure: 2 },
        ]
    );
    assert_eq!((pass.minerals, pass.vespene), (800, 800));
}
