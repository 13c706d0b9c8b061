//! What the host shows of the world at one tick, as plain values.

use crate::costs::CostTable;
use crate::kinds::{UnitKind, UpgradeKind};
use vstd::prelude::*;

verus! {

/// Steps of the coordinate grid in one distance unit.
pub const STEPS_PER_UNIT: i64 = 4096;

/// How far from a base a mineral field may lie and still belong to it, in
/// grid steps: eleven distance units.
pub const LOCAL_RADIUS: i64 = 11 * STEPS_PER_UNIT;

/// A position on the map, on a grid of `STEPS_PER_UNIT` steps to the
/// distance unit.
#[derive(Clone, Copy, Debug, PartialEq, Eq, Structural)]
pub struct Point {
    pub x: i32,
    pub y: i32,
}

/// The square of the distance between two points, in grid steps.
pub open spec fn distance_squared(a: Point, b: Point) -> int {
    (a.x - b.x) * (a.x - b.x) + (a.y - b.y) * (a.y - b.y)
}

/// Whether `a` lies closer to `b` than `radius` grid steps.
pub open spec fn is_closer(a: Point, b: Point, radius: int) -> bool {
    distance_squared(a, b) < radius * radius
}

impl Point {
    /// Computes [`distance_squared`].
    pub fn distance_squared_to(&self, other: &Point) -> (d: i128)
        ensures
            d == distance_squared(*self, *other),
            0 <= d <= 0x2_0000_0000_0000_0000,
    {
        let dx: i128 = self.x as i128 - other.x as i128;
        let dy: i128 = self.y as i128 - other.y as i128;
        assert(0 <= dx * dx <= 0x1_0000_0000_0000_0000) by (nonlinear_arith)
            requires
                -0x1_0000_0000 <= dx <= 0x1_0000_0000,
        ;
        assert(0 <= dy * dy <= 0x1_0000_0000_0000_0000) by (nonlinear_arith)
            requires
                -0x1_0000_0000 <= dy <= 0x1_0000_0000,
        ;
        dx * dx + dy * dy
    }

    /// Whether this point lies within `LOCAL_RADIUS` of `other`, the border
    /// left out.
    pub fn is_local_to(&self, other: &Point) -> (near: bool)
        ensures
            near == is_closer(*self, *other, LOCAL_RADIUS as int),
    {
        let radius: i128 = LOCAL_RADIUS as i128;
        self.distance_squared_to(other) < radius * radius
    }
}

/// One of the agent's harvesters.
#[derive(Clone, Copy, Debug, PartialEq, Eq, Structural)]
pub struct Worker {
    pub tag: u64,
    pub position: Point,
    /// The unit that the worker's current order aims at, if it has one.
    pub target: Option<u64>,
    /// The worker has no order.
    pub idle: bool,
    pub carrying_minerals: bool,
    pub carrying_vespene: bool,
}

/// A place that harvesters are counted at: a base, for the mineral fields
/// around it, or a gas building.
#[derive(Clone, Copy, Debug, PartialEq, Eq, Structural)]
pub struct ResourceNode {
    pub tag: u64,
    pub position: Point,
    pub ideal_harvesters: u32,
    pub assigned_harvesters: u32,
}

/// A mineral field.
#[derive(Clone, Copy, Debug, PartialEq, Eq, Structural)]
pub struct MineralField {
    pub tag: u64,
    pub position: Point,
    /// What is left to mine, where the host tells.
    pub contents: Option<u32>,
}

/// One of the agent's structures.
#[derive(Clone, Copy, Debug, PartialEq, Eq, Structural)]
pub struct Structure {
    pub tag: u64,
    pub kind: UnitKind,
    /// The structure is busy with an order.
    pub active: bool,
}

/// An enemy unit as it is seen, or as its death is reported.
#[derive(Clone, Copy, Debug, PartialEq, Eq, Structural)]
pub struct EnemyUnit {
    pub tag: u64,
    pub kind: UnitKind,
    /// Supply that the unit takes up, in halves of a supply point.
    pub supply_cost: u32,
    pub is_worker: bool,
}

/// The state of the world at one tick.
pub struct Snapshot {
    /// The tick counter.
    pub game_loop: u32,
    pub minerals: u32,
    pub vespene: u32,
    /// Supply points still free.
    pub supply_left: u32,
    /// Supply points bound in the agent's army.
    pub supply_army: u32,
    /// Finished drones.
    pub drones: u32,
    /// Roaches, those in production included.
    pub roaches: u32,
    /// Zerglings, those in production included.
    pub zerglings: u32,
    pub workers: Vec<Worker>,
    /// Finished bases.
    pub bases: Vec<ResourceNode>,
    /// Finished gas buildings.
    pub gas_buildings: Vec<ResourceNode>,
    pub mineral_fields: Vec<MineralField>,
    pub structures: Vec<Structure>,
    /// Upgrades that are complete.
    pub upgrades: Vec<UpgradeKind>,
    /// Upgrades that are being researched.
    pub ordered_upgrades: Vec<UpgradeKind>,
    /// Enemy units in sight, structures left out.
    pub enemies: Vec<EnemyUnit>,
    pub costs: CostTable,
}

impl Snapshot {
    /// A world at tick `game_loop` with nothing in it.
    pub fn empty(game_loop: u32) -> (s: Snapshot)
        ensures
            s.game_loop == game_loop,
            s.minerals == 0,
            s.vespene == 0,
            s.supply_left == 0,
            s.supply_army == 0,
            s.drones == 0,
            s.roaches == 0,
            s.zerglings == 0,
            s.workers@.len() == 0,
            s.bases@.len() == 0,
            s.gas_buildings@.len() == 0,
            s.mineral_fields@.len() == 0,
            s.structures@.len() == 0,
            s.upgrades@.len() == 0,
            s.ordered_upgrades@.len() == 0,
            s.enemies@.len() == 0,
            forall|kind: UnitKind| s.costs.unit_cost(kind) == crate::costs::Cost::free(),
            forall|kind: UpgradeKind| s.costs.upgrade_cost(kind) == crate::costs::Cost::free(),
    {
        Snapshot {
            game_loop,
            minerals: 0,
            vespene: 0,
            supply_left: 0,
            supply_army: 0,
            drones: 0,
            roaches: 0,
            zerglings: 0,
            workers: Vec::new(),
            bases: Vec::new(),
            gas_buildings: Vec::new(),
            mineral_fields: Vec::new(),
            structures: Vec::new(),
            upgrades: Vec::new(),
            ordered_upgrades: Vec::new(),
            enemies: Vec::new(),
            costs: CostTable::new(),
        }
    }
}

} // verus!
